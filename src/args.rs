use vstd::prelude::*;
use vstd::string::StrSliceExecFns;

use crate::shell::{shell_named, Shell};

verus! {

/// The options that a run of `sd-card-backup` works with.
#[derive(Clone, Copy, Debug, PartialEq, Eq, Structural)]
pub struct SDCardBackupArgs {
    /// Report what would be backed up without copying anything.
    pub dry_run: bool,
    /// Print the completion script for this shell instead of running.
    pub completions: Option<Shell>,
}

/// What the command line asks for.
#[derive(Clone, Copy, Debug, PartialEq, Eq, Structural)]
pub enum Resolution {
    /// Run the program with these options; no completion shell is set.
    Run(SDCardBackupArgs),
    /// Print the completion script for this shell to standard output, then
    /// exit with status 0.
    Completions(Shell),
    /// Print the help text, then exit with status 0.
    Help,
    /// Print the version, then exit with status 0.
    Version,
}

/// Why a command line is refused. Each carries the position in the argument
/// list (the program name not counted) of the argument at fault.
#[derive(Clone, Copy, Debug, PartialEq, Eq, Structural)]
pub enum ArgError {
    /// An argument that is no flag of this program, or any argument after `--`.
    UnknownArgument(usize),
    /// `--completions` as the last argument, or followed by a flag.
    MissingValue(usize),
    /// A `--completions` value that names no supported shell.
    InvalidShell(usize),
    /// A flag given a second time.
    Repeated(usize),
}

/// The exit status with which a refused command line ends the process.
pub const USAGE_ERROR_STATUS: i32 = 2;

/// `t` starts with a dash and has a second character, so it is read as a flag
/// and never as the value of an option.
pub open spec fn is_flag_like(t: Seq<char>) -> bool {
    t.len() >= 2 && t[0] == '-'
}

/// `t` is a cluster of short flags that begins with `-c`.
pub open spec fn is_short_for(t: Seq<char>, c: char) -> bool {
    t.len() >= 2 && t[0] == '-' && t[1] == c
}

/// The first characters of `t` are `p`.
pub open spec fn has_prefix(t: Seq<char>, p: Seq<char>) -> bool {
    p.len() <= t.len() && t.subrange(0, p.len() as int) == p
}

/// `t` is `--completions`, alone or with an attached `=value`.
pub open spec fn names_completions(t: Seq<char>) -> bool {
    t == "--completions"@ || has_prefix(t, "--completions="@)
}

/// The resolution once every argument has been read.
pub open spec fn finish(dry_run: bool, completions: Option<Shell>) -> Result<Resolution, ArgError> {
    match completions {
        Some(s) => Ok(Resolution::Completions(s)),
        None => Ok(Resolution::Run(SDCardBackupArgs { dry_run, completions: None })),
    }
}

/// Reads `argv` from position `i` on, with `dry_run` and `completions` as set
/// by the arguments before it. Arguments are read from left to right, and the
/// first help or version flag, or the first fault, decides at once.
pub open spec fn resolve_from(
    argv: Seq<Seq<char>>,
    i: int,
    dry_run: bool,
    completions: Option<Shell>,
) -> Result<Resolution, ArgError>
    decreases argv.len() - i,
{
    if i < 0 || i >= argv.len() {
        finish(dry_run, completions)
    } else {
        let t = argv[i];
        if t == "--help"@ || is_short_for(t, 'h') {
            Ok(Resolution::Help)
        } else if t == "--version"@ || is_short_for(t, 'V') {
            Ok(Resolution::Version)
        } else if t == "--dry-run"@ {
            if dry_run {
                Err(ArgError::Repeated(i as usize))
            } else {
                resolve_from(argv, i + 1, true, completions)
            }
        } else if t == "--completions"@ {
            if i + 1 >= argv.len() || is_flag_like(argv[i + 1]) {
                Err(ArgError::MissingValue(i as usize))
            } else if completions is Some {
                Err(ArgError::Repeated(i as usize))
            } else {
                match shell_named(argv[i + 1]) {
                    Some(s) => resolve_from(argv, i + 2, dry_run, Some(s)),
                    None => Err(ArgError::InvalidShell((i + 1) as usize)),
                }
            }
        } else if has_prefix(t, "--completions="@) {
            if completions is Some {
                Err(ArgError::Repeated(i as usize))
            } else {
                match shell_named(t.subrange("--completions="@.len() as int, t.len() as int)) {
                    Some(s) => resolve_from(argv, i + 1, dry_run, Some(s)),
                    None => Err(ArgError::InvalidShell(i as usize)),
                }
            }
        } else if t == "--"@ {
            if i + 1 < argv.len() {
                Err(ArgError::UnknownArgument((i + 1) as usize))
            } else {
                finish(dry_run, completions)
            }
        } else {
            Err(ArgError::UnknownArgument(i as usize))
        }
    }
}

/// What the argument list `argv` (the program name not included) asks for.
pub open spec fn resolution_of(argv: Seq<Seq<char>>) -> Result<Resolution, ArgError> {
    resolve_from(argv, 0, false, None)
}

fn is_word(t: &String, w: &str) -> (r: bool)
    ensures
        r == (t@ == w@),
{
    let owned = w.to_owned();
    t.eq(&owned)
}

fn starts_short(t: &str, c: char) -> (r: bool)
    ensures
        r == is_short_for(t@, c),
{
    let n = t.unicode_len();
    n >= 2 && t.get_char(0) == '-' && t.get_char(1) == c
}

fn looks_like_flag(t: &str) -> (r: bool)
    ensures
        r == is_flag_like(t@),
{
    let n = t.unicode_len();
    n >= 2 && t.get_char(0) == '-'
}

fn starts_with(t: &str, p: &str) -> (r: bool)
    ensures
        r == has_prefix(t@, p@),
{
    let n = t.unicode_len();
    let m = p.unicode_len();
    if m > n {
        return false;
    }
    let mut k: usize = 0;
    while k < m
        invariant
            n == t@.len(),
            m == p@.len(),
            m <= n,
            k <= m,
            forall|j: int| 0 <= j < k ==> t@[j] == p@[j],
        decreases m - k,
    {
        if t.get_char(k) != p.get_char(k) {
            assert(t@.subrange(0, m as int)[k as int] != p@[k as int]);
            return false;
        }
        k = k + 1;
    }
    assert(t@.subrange(0, m as int) =~= p@);
    true
}

/// Resolves the argument list `argv` (the program name not included): the
/// options for a run, the completion script to print, help or version, or the
/// fault for which the command line is refused.
pub fn resolve_args(argv: &Vec<String>) -> (r: Result<Resolution, ArgError>)
    ensures
        r == resolution_of(argv.deep_view()),
{
    let ghost words = argv.deep_view();
    let n = argv.len();
    let mut i: usize = 0;
    let mut dry_run = false;
    let mut completions: Option<Shell> = None;
    while i < n
        invariant
            words == argv.deep_view(),
            n == argv.len(),
            i <= n,
            resolve_from(words, i as int, dry_run, completions) == resolution_of(words),
        decreases n - i,
    {
        let t = &argv[i];
        assert(words[i as int] == t@);
        if is_word(t, "--help") || starts_short(t.as_str(), 'h') {
            return Ok(Resolution::Help);
        } else if is_word(t, "--version") || starts_short(t.as_str(), 'V') {
            return Ok(Resolution::Version);
        } else if is_word(t, "--dry-run") {
            if dry_run {
                return Err(ArgError::Repeated(i));
            }
            dry_run = true;
            i = i + 1;
        } else if is_word(t, "--completions") {
            if i + 1 >= n || looks_like_flag(argv[i + 1].as_str()) {
                return Err(ArgError::MissingValue(i));
            }
            assert(words[i + 1] == argv[i + 1]@);
            if completions.is_some() {
                return Err(ArgError::Repeated(i));
            }
            match Shell::from_name(argv[i + 1].as_str()) {
                Some(s) => {
                    completions = Some(s);
                    i = i + 2;
                },
                None => {
                    return Err(ArgError::InvalidShell(i + 1));
                },
            }
        } else if starts_with(t.as_str(), "--completions=") {
            if completions.is_some() {
                return Err(ArgError::Repeated(i));
            }
            let skip = "--completions=".unicode_len();
            let len = t.as_str().unicode_len();
            let value = t.as_str().substring_char(skip, len);
            match Shell::from_name(value) {
                Some(s) => {
                    completions = Some(s);
                    i = i + 1;
                },
                None => {
                    return Err(ArgError::InvalidShell(i));
                },
            }
        } else if is_word(t, "--") {
            if i + 1 < n {
                return Err(ArgError::UnknownArgument(i + 1));
            }
            i = i + 1;
        } else {
            return Err(ArgError::UnknownArgument(i));
        }
    }
    match completions {
        Some(s) => Ok(Resolution::Completions(s)),
        None => Ok(Resolution::Run(SDCardBackupArgs { dry_run, completions: None })),
    }
}

} // verus!
