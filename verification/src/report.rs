//! Validation reports: the errors that a check finds, and their text.

use vstd::prelude::*;

verus! {

/// One error that a check found: where in the document, and what.
#[derive(Clone, Debug, PartialEq, Eq)]
pub struct ValidationError {
    pub path: String,
    pub message: String,
}

impl View for ValidationError {
    type V = (Seq<char>, Seq<char>);

    open spec fn view(&self) -> (Seq<char>, Seq<char>) {
        (self.path@, self.message@)
    }
}

/// The errors of a report, as plain values.
pub open spec fn errors_view(errors: Seq<ValidationError>) -> Seq<(Seq<char>, Seq<char>)> {
    errors.map_values(|e: ValidationError| e@)
}

/// The line that reports one error: `[path]: message`.
pub open spec fn error_line(e: (Seq<char>, Seq<char>)) -> Seq<char> {
    "["@ + e.0 + "]: "@ + e.1
}

/// Each error's line followed by a line break.
pub open spec fn report_lines(errs: Seq<(Seq<char>, Seq<char>)>) -> Seq<char>
    decreases errs.len(),
{
    if errs.len() == 0 {
        Seq::empty()
    } else {
        report_lines(errs.drop_last()) + error_line(errs.last()) + "\n"@
    }
}

/// The errors' lines joined by line breaks, with none after the last.
pub open spec fn report_joined(errs: Seq<(Seq<char>, Seq<char>)>) -> Seq<char>
    decreases errs.len(),
{
    if errs.len() == 0 {
        Seq::empty()
    } else if errs.len() == 1 {
        error_line(errs[0])
    } else {
        report_joined(errs.drop_last()) + "\n"@ + error_line(errs.last())
    }
}

/// Appends `[path]: message` to `out`.
fn push_error_line(out: &mut String, e: &ValidationError)
    ensures
        final(out)@ == old(out)@ + error_line(e@),
{
    out.append("[");
    out.append(e.path.as_str());
    out.append("]: ");
    out.append(e.message.as_str());
    assert(out@ =~= old(out)@ + error_line(e@));
}

/// The report with one line per error, each ending in a line break.
pub fn format_report_lines(errors: &Vec<ValidationError>) -> (r: String)
    ensures
        r@ == report_lines(errors_view(errors@)),
{
    let mut out = String::new();
    let mut i: usize = 0;
    while i < errors.len()
        invariant
            i <= errors.len(),
            out@ == report_lines(errors_view(errors@.take(i as int))),
        decreases errors.len() - i,
    {
        push_error_line(&mut out, &errors[i]);
        out.append("\n");
        proof {
            let prefix = errors_view(errors@.take(i + 1));
            assert(prefix.drop_last() =~= errors_view(errors@.take(i as int)));
            assert(prefix.last() == errors@[i as int]@);
        }
        i = i + 1;
    }
    assert(errors@.take(errors.len() as int) =~= errors@);
    out
}

/// The report with the errors' lines joined by line breaks.
pub fn join_report_lines(errors: &Vec<ValidationError>) -> (r: String)
    ensures
        r@ == report_joined(errors_view(errors@)),
{
    let mut out = String::new();
    let mut i: usize = 0;
    while i < errors.len()
        invariant
            i <= errors.len(),
            out@ == report_joined(errors_view(errors@.take(i as int))),
        decreases errors.len() - i,
    {
        if i > 0 {
            out.append("\n");
        }
        push_error_line(&mut out, &errors[i]);
        proof {
            let prefix = errors_view(errors@.take(i + 1));
            assert(prefix.drop_last() =~= errors_view(errors@.take(i as int)));
            assert(prefix.last() == errors@[i as int]@);
            if i == 0 {
                assert(prefix[0] == errors@[0]@);
            }
        }
        i = i + 1;
    }
    assert(errors@.take(errors.len() as int) =~= errors@);
    out
}

/// The two report formats differ only in the line break after the last line:
/// for any errors, the one-line-each report is the joined report followed by
/// a line break, and both are empty when there are no errors.
pub proof fn lemma_lines_are_joined_plus_break(errs: Seq<(Seq<char>, Seq<char>)>)
    ensures
        errs.len() == 0 ==> report_lines(errs) == Seq::<char>::empty() && report_joined(errs) == Seq::<char>::empty(),
        errs.len() > 0 ==> report_lines(errs) == report_joined(errs) + "\n"@,
    decreases errs.len(),
{
    if errs.len() > 1 {
        lemma_lines_are_joined_plus_break(errs.drop_last());
        assert(report_lines(errs) =~= report_joined(errs) + "\n"@);
    } else if errs.len() == 1 {
        assert(errs.drop_last().len() == 0);
        assert(report_lines(errs.drop_last()) == Seq::<char>::empty());
        assert(errs.last() == errs[0]);
        assert(Seq::<char>::empty() + error_line(errs[0]) =~= error_line(errs[0]));
        assert(report_lines(errs) =~= report_joined(errs) + "\n"@);
    }
}

/// A report is empty exactly when there is no error to report.
pub proof fn lemma_report_empty_iff_no_errors(errs: Seq<(Seq<char>, Seq<char>)>)
    ensures
        (report_lines(errs).len() == 0) <==> (errs.len() == 0),
        (report_joined(errs).len() == 0) <==> (errs.len() == 0),
    decreases errs.len(),
{
    reveal_strlit("[");
    reveal_strlit("]: ");
    reveal_strlit("\n");
    if errs.len() > 1 {
        lemma_report_empty_iff_no_errors(errs.drop_last());
    }
}

/// The report of one error is the single line `[path]: message` with a line
/// break after it; joined, it is that line alone.
pub proof fn lemma_report_of_one_error(e: (Seq<char>, Seq<char>))
    ensures
        report_lines(seq![e]) == "["@ + e.0 + "]: "@ + e.1 + "\n"@,
        report_joined(seq![e]) == "["@ + e.0 + "]: "@ + e.1,
{
    let s = seq![e];
    assert(s.drop_last() =~= Seq::<(Seq<char>, Seq<char>)>::empty());
    assert(report_lines(s.drop_last()) == Seq::<char>::empty());
    assert(s.last() == e);
    assert(s[0] == e);
    assert(report_lines(s) =~= "["@ + e.0 + "]: "@ + e.1 + "\n"@);
}

/// The report of two runs of errors is the report of the first followed by
/// the report of the second: every error of either run gets its line, in
/// order, whatever the number of errors.
pub proof fn lemma_report_lines_concat(a: Seq<(Seq<char>, Seq<char>)>, b: Seq<(Seq<char>, Seq<char>)>)
    ensures
        report_lines(a + b) == report_lines(a) + report_lines(b),
    decreases b.len(),
{
    if b.len() == 0 {
        assert(a + b =~= a);
        assert(report_lines(a) + report_lines(b) =~= report_lines(a));
    } else {
        lemma_report_lines_concat(a, b.drop_last());
        assert((a + b).drop_last() =~= a + b.drop_last());
        assert((a + b).last() == b.last());
        assert(report_lines(a + b) =~= report_lines(a) + report_lines(b));
    }
}

/// Adding an error to a report adds its line at the end: the report of errors
/// `errs` followed by `e` is the report of `errs`, then `[path]: message` and
/// a line break.
pub proof fn lemma_report_lines_push(errs: Seq<(Seq<char>, Seq<char>)>, e: (Seq<char>, Seq<char>))
    ensures
        report_lines(errs.push(e)) == report_lines(errs) + "["@ + e.0 + "]: "@ + e.1 + "\n"@,
{
    lemma_report_lines_concat(errs, seq![e]);
    lemma_report_of_one_error(e);
    assert(errs.push(e) =~= errs + seq![e]);
    assert(report_lines(errs) + ("["@ + e.0 + "]: "@ + e.1 + "\n"@) =~= report_lines(errs) + "["@ + e.0 + "]: "@ + e.1 + "\n"@);
}

/// Joining two non-empty runs of errors puts a line break between their
/// joined reports: every error keeps its line, in order.
pub proof fn lemma_report_joined_concat(a: Seq<(Seq<char>, Seq<char>)>, b: Seq<(Seq<char>, Seq<char>)>)
    requires
        a.len() > 0,
        b.len() > 0,
    ensures
        report_joined(a + b) == report_joined(a) + "\n"@ + report_joined(b),
    decreases b.len(),
{
    if b.len() == 1 {
        assert((a + b).drop_last() =~= a);
        assert((a + b).last() == b[0]);
        assert(b.last() == b[0]);
        assert(report_joined(a + b) =~= report_joined(a) + "\n"@ + report_joined(b));
    } else {
        lemma_report_joined_concat(a, b.drop_last());
        assert((a + b).drop_last() =~= a + b.drop_last());
        assert((a + b).last() == b.last());
        assert(report_joined(a + b) =~= report_joined(a) + "\n"@ + report_joined(b));
    }
}

} // verus!
