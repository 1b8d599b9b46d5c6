use vstd::prelude::*;

verus! {

/// A shell for which a completion script can be generated.
#[derive(Clone, Copy, Debug, PartialEq, Eq, Structural)]
pub enum Shell {
    Bash,
    Elvish,
    Fish,
    PowerShell,
    Zsh,
}

/// The value name by which each shell is given on the command line.
pub open spec fn shell_value_name(s: Shell) -> Seq<char> {
    match s {
        Shell::Bash => "bash"@,
        Shell::Elvish => "elvish"@,
        Shell::Fish => "fish"@,
        Shell::PowerShell => "powershell"@,
        Shell::Zsh => "zsh"@,
    }
}

/// The shell whose value name is exactly `name`, if any: the match is
/// case-sensitive and admits no aliases or abbreviations.
pub open spec fn shell_named(name: Seq<char>) -> Option<Shell> {
    if name == "bash"@ {
        Some(Shell::Bash)
    } else if name == "elvish"@ {
        Some(Shell::Elvish)
    } else if name == "fish"@ {
        Some(Shell::Fish)
    } else if name == "powershell"@ {
        Some(Shell::PowerShell)
    } else if name == "zsh"@ {
        Some(Shell::Zsh)
    } else {
        None
    }
}

/// Relies on `clap_complete::Shell::from_str`, which accepts exactly the value
/// names `bash`, `elvish`, `fish`, `powershell` and `zsh` (its
/// `PossibleValue::matches` with case left significant) and refuses any other.
#[verifier::external_body]
fn shell_from_name(name: &str) -> (r: Option<Shell>)
    ensures
        r == shell_named(name@),
{
    match <clap_complete::Shell as std::str::FromStr>::from_str(name) {
        Ok(clap_complete::Shell::Bash) => Some(Shell::Bash),
        Ok(clap_complete::Shell::Elvish) => Some(Shell::Elvish),
        Ok(clap_complete::Shell::Fish) => Some(Shell::Fish),
        Ok(clap_complete::Shell::PowerShell) => Some(Shell::PowerShell),
        Ok(clap_complete::Shell::Zsh) => Some(Shell::Zsh),
        _ => None,
    }
}

impl Shell {
    /// The shell that `name` names on the command line, if any.
    pub fn from_name(name: &str) -> (r: Option<Shell>)
        ensures
            r == shell_named(name@),
            r matches Some(s) ==> shell_value_name(s) == name@,
    {
        shell_from_name(name)
    }
}

} // verus!
