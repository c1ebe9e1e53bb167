//! Where the shell completions of the command are found.

use vstd::prelude::*;

verus! {

/// A shell that completions are made for.
#[derive(Clone, Copy, Debug, PartialEq, Eq)]
pub enum ShellKind {
    Bash,
    Elvish,
    Fish,
    PowerShell,
    Zsh,
}

/// The name of the completion file for the command `name` in a shell, as
/// `clap_complete` names it: `name.bash`, `name.elv`, `name.fish`,
/// `_name.ps1` and `_name`.
pub open spec fn completion_file_name(shell: ShellKind, name: Seq<char>) -> Seq<char> {
    match shell {
        ShellKind::Bash => name + ".bash"@,
        ShellKind::Elvish => name + ".elv"@,
        ShellKind::Fish => name + ".fish"@,
        ShellKind::PowerShell => "_"@ + name + ".ps1"@,
        ShellKind::Zsh => "_"@ + name,
    }
}

/// `clap_complete::Generator::file_name` of the `clap_complete` shell of the
/// same name. Claimed: it is the name that `completion_file_name` gives, as
/// each shell's `file_name` formats it.
#[verifier::external_body]
fn shell_file_name(shell: ShellKind, name: &str) -> (r: String)
    ensures
        r@ == completion_file_name(shell, name@),
{
    let s = match shell {
        ShellKind::Bash => clap_complete::aot::Shell::Bash,
        ShellKind::Elvish => clap_complete::aot::Shell::Elvish,
        ShellKind::Fish => clap_complete::aot::Shell::Fish,
        ShellKind::PowerShell => clap_complete::aot::Shell::PowerShell,
        ShellKind::Zsh => clap_complete::aot::Shell::Zsh,
    };
    clap_complete::aot::Generator::file_name(&s, name)
}

/// The path of the completion file for the command `name`: in the directory
/// that `completions_dir` names where it is given, else in `default_dir`.
pub fn completion_path(completions_dir: Option<String>, default_dir: &str, shell: ShellKind, name: &str) -> (r: String)
    ensures
        r@ == match completions_dir {
            Some(d) => d@,
            None => default_dir@,
        } + "/"@ + completion_file_name(shell, name@),
{
    let mut path = match completions_dir {
        Some(d) => d,
        None => String::from_str(default_dir),
    };
    let file = shell_file_name(shell, name);
    path.append("/");
    path.append(file.as_str());
    path
}

} // verus!
