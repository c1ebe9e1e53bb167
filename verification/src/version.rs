//! Schema format versions, read with the `semver` crate.

use vstd::prelude::*;

verus! {

/// A semantic version `major.minor.patch[-pre][+build]`, as `semver::Version`
/// holds it: the three numbers, and the pre-release and build texts (empty
/// where the version has none).
#[derive(Clone, Debug, PartialEq, Eq)]
pub struct SchemaVersion {
    pub major: u64,
    pub minor: u64,
    pub patch: u64,
    pub pre: String,
    pub build: String,
}

impl SchemaVersion {
    /// The version as plain values: numbers, pre-release text, build text.
    pub open spec fn parts(&self) -> (u64, u64, u64, Seq<char>, Seq<char>) {
        (self.major, self.minor, self.patch, self.pre@, self.build@)
    }
}

/// What `semver::Version::parse` reads from a text: the three numbers and the
/// pre-release and build texts, or `None` where the text is no SemVer version.
pub uninterp spec fn semver_parts(text: Seq<char>) -> Option<(u64, u64, u64, Seq<char>, Seq<char>)>;

/// The message (`semver::Error`'s `Display`) that `semver::Version::parse`
/// gives where a text is no SemVer version.
pub uninterp spec fn semver_error_text(text: Seq<char>) -> Seq<char>;

/// `semver::Version::parse`, its result taken apart into plain values and its
/// error turned into the error's `Display` text.
/// Claimed: it succeeds exactly on the texts that `semver_parts` reads, what it
/// returns is what `semver_parts` gives, and its error message is the one that
/// `semver_error_text` names.
#[verifier::external_body]
pub(crate) fn parse_version(text: &str) -> (r: Result<SchemaVersion, String>)
    ensures
        r is Ok <==> semver_parts(text@) is Some,
        r matches Ok(v) ==> semver_parts(text@) == Some(v.parts()),
        r matches Err(m) ==> m@ == semver_error_text(text@),
{
    match semver::Version::parse(text) {
        Ok(v) => Ok(SchemaVersion {
            major: v.major,
            minor: v.minor,
            patch: v.patch,
            pre: v.pre.as_str().to_string(),
            build: v.build.as_str().to_string(),
        }),
        Err(e) => Err(e.to_string()),
    }
}

} // verus!
