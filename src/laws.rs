use vstd::prelude::*;

use crate::args::{
    has_prefix, is_flag_like, is_short_for, names_completions, resolution_of, resolve_from,
    ArgError, Resolution,
};
use crate::shell::{shell_named, shell_value_name, Shell};

verus! {

/// `r` is accepted and neither help nor version ended resolution early.
pub open spec fn accepted_without_help(r: Result<Resolution, ArgError>) -> bool {
    r is Ok && !(r matches Ok(Resolution::Help)) && !(r matches Ok(Resolution::Version))
}

proof fn lemma_literals()
    ensures
        is_flag_like("--completions"@),
        "--completions"@ != "--help"@,
        "--completions"@ != "--version"@,
        "--completions"@ != "--dry-run"@,
        !is_short_for("--completions"@, 'h'),
        !is_short_for("--completions"@, 'V'),
        forall|s: Shell| #[trigger] shell_named(shell_value_name(s)) == Some(s),
        forall|s: Shell| !is_flag_like(#[trigger] shell_value_name(s)),
{
    reveal_strlit("--completions");
    reveal_strlit("--help");
    reveal_strlit("--version");
    reveal_strlit("--dry-run");
    reveal_strlit("bash");
    reveal_strlit("elvish");
    reveal_strlit("fish");
    reveal_strlit("powershell");
    reveal_strlit("zsh");
    assert("bash"@.len() == 4 && "elvish"@.len() == 6 && "fish"@.len() == 4);
    assert("powershell"@.len() == 10 && "zsh"@.len() == 3);
    assert("bash"@[0] != "fish"@[0]);
}

proof fn lemma_contains_step(argv: Seq<Seq<char>>, i: int, x: Seq<char>)
    requires
        0 <= i < argv.len(),
    ensures
        argv.subrange(i, argv.len() as int).contains(x) == (argv[i] == x || argv.subrange(
            i + 1,
            argv.len() as int,
        ).contains(x)),
{
    let whole = argv.subrange(i, argv.len() as int);
    let rest = argv.subrange(i + 1, argv.len() as int);
    if rest.contains(x) {
        let k = choose|k: int| 0 <= k < rest.len() && rest[k] == x;
        assert(whole[k + 1] == x);
    }
    if whole.contains(x) {
        let k = choose|k: int| 0 <= k < whole.len() && whole[k] == x;
        if k > 0 {
            assert(rest[k - 1] == x);
        }
    }
    assert(whole[0] == argv[i]);
}

proof fn lemma_no_completions_from(argv: Seq<Seq<char>>, i: int, dry_run: bool)
    requires
        0 <= i,
        forall|k: int| i <= k < argv.len() ==> !names_completions(#[trigger] argv[k]),
    ensures
        !(resolve_from(argv, i, dry_run, None) matches Ok(Resolution::Completions(_))),
        resolve_from(argv, i, dry_run, None) matches Ok(Resolution::Run(a)) ==> a.completions
            is None && a.dry_run == (dry_run || (i < argv.len() && argv.subrange(
            i,
            argv.len() as int,
        ).contains("--dry-run"@))),
    decreases argv.len() - i,
{
    if i < argv.len() {
        lemma_contains_step(argv, i, "--dry-run"@);
        assert(!names_completions(argv[i]));
        if i + 1 < argv.len() {
            lemma_no_completions_from(argv, i + 1, true);
            lemma_no_completions_from(argv, i + 1, dry_run);
        }
    }
}

/// A command line without `--completions` never resolves to a completion
/// script. Where it resolves to a run, no completion shell is set and
/// `dry_run` holds exactly when `--dry-run` is among the arguments.
pub proof fn options_without_completions(argv: Seq<Seq<char>>)
    requires
        forall|k: int| 0 <= k < argv.len() ==> !names_completions(#[trigger] argv[k]),
    ensures
        !(resolution_of(argv) matches Ok(Resolution::Completions(_))),
        resolution_of(argv) matches Ok(Resolution::Run(a)) ==> a.completions is None
            && a.dry_run == argv.contains("--dry-run"@),
{
    lemma_no_completions_from(argv, 0, false);
    assert(argv.subrange(0, argv.len() as int) =~= argv);
}

proof fn lemma_shell_kept(argv: Seq<Seq<char>>, k: int, dry_run: bool, s: Shell)
    requires
        0 <= k,
        accepted_without_help(resolve_from(argv, k, dry_run, Some(s))),
    ensures
        resolve_from(argv, k, dry_run, Some(s)) == Ok::<Resolution, ArgError>(
            Resolution::Completions(s),
        ),
    decreases argv.len() - k,
{
    if k < argv.len() && argv[k] == "--dry-run"@ && !dry_run {
        lemma_shell_kept(argv, k + 1, true, s);
    }
}

proof fn lemma_option_reached(
    argv: Seq<Seq<char>>,
    i: int,
    j: int,
    dry_run: bool,
    completions: Option<Shell>,
)
    requires
        0 <= j <= i,
        i < argv.len(),
        argv[i] == "--completions"@,
        accepted_without_help(resolve_from(argv, j, dry_run, completions)),
    ensures
        completions is None,
        i + 1 < argv.len(),
        shell_named(argv[i + 1]) matches Some(s) && resolve_from(argv, j, dry_run, completions)
            == Ok::<Resolution, ArgError>(Resolution::Completions(s)),
    decreases i - j,
{
    lemma_literals();
    let t = argv[j];
    if j == i {
        if i + 1 < argv.len() && completions is None && !is_flag_like(argv[i + 1]) {
            if let Some(s) = shell_named(argv[i + 1]) {
                lemma_shell_kept(argv, i + 2, dry_run, s);
            }
        }
    } else if t == "--help"@ || is_short_for(t, 'h') || t == "--version"@ || is_short_for(t, 'V') {
    } else if t == "--dry-run"@ {
        if !dry_run {
            lemma_option_reached(argv, i, j + 1, true, completions);
        }
    } else if t == "--completions"@ {
        if j + 1 < argv.len() && !is_flag_like(argv[j + 1]) && completions is None {
            if let Some(s) = shell_named(argv[j + 1]) {
                lemma_option_reached(argv, i, j + 2, dry_run, Some(s));
            }
        }
    } else if has_prefix(t, "--completions="@) {
        if completions is None {
            if let Some(s) = shell_named(t.subrange("--completions="@.len() as int, t.len() as int)) {
                lemma_option_reached(argv, i, j + 1, dry_run, Some(s));
            }
        }
    }
}

/// Where `--completions` is followed by the name of a supported shell, a
/// command line that is accepted, and asks for neither help nor version,
/// resolves to printing that shell's completion script, whatever other flags
/// stand beside it.
pub proof fn completions_for_supported_shell(argv: Seq<Seq<char>>, i: int, s: Shell)
    requires
        0 <= i,
        i + 1 < argv.len(),
        argv[i] == "--completions"@,
        argv[i + 1] == shell_value_name(s),
        accepted_without_help(resolution_of(argv)),
    ensures
        resolution_of(argv) == Ok::<Resolution, ArgError>(Resolution::Completions(s)),
{
    lemma_literals();
    lemma_option_reached(argv, i, 0, false, None);
}

/// `--completions` followed by a value that names no supported shell is
/// refused, unless a help or version flag ends resolution first.
pub proof fn unsupported_shell_refused(argv: Seq<Seq<char>>, i: int)
    requires
        0 <= i,
        i + 1 < argv.len(),
        argv[i] == "--completions"@,
        shell_named(argv[i + 1]) is None,
        !(resolution_of(argv) matches Ok(Resolution::Help)),
        !(resolution_of(argv) matches Ok(Resolution::Version)),
    ensures
        resolution_of(argv) is Err,
{
    if resolution_of(argv) is Ok {
        lemma_option_reached(argv, i, 0, false, None);
    }
}

/// `t` is a flag of this program, or the `--` that ends the flags.
pub open spec fn is_known_flag(t: Seq<char>) -> bool {
    ||| t == "--help"@
    ||| is_short_for(t, 'h')
    ||| t == "--version"@
    ||| is_short_for(t, 'V')
    ||| t == "--dry-run"@
    ||| names_completions(t)
    ||| t == "--"@
}

proof fn lemma_unknown_reached(
    argv: Seq<Seq<char>>,
    i: int,
    j: int,
    dry_run: bool,
    completions: Option<Shell>,
)
    requires
        0 <= j <= i < argv.len(),
        is_flag_like(argv[i]),
        !is_known_flag(argv[i]),
    ensures
        !accepted_without_help(resolve_from(argv, j, dry_run, completions)),
    decreases i - j,
{
    let t = argv[j];
    if j < i {
        if t == "--help"@ || is_short_for(t, 'h') || t == "--version"@ || is_short_for(t, 'V') {
        } else if t == "--dry-run"@ {
            lemma_unknown_reached(argv, i, j + 1, true, completions);
        } else if t == "--completions"@ {
            if j + 2 <= i {
                if let Some(s) = shell_named(argv[j + 1]) {
                    lemma_unknown_reached(argv, i, j + 2, dry_run, Some(s));
                }
            }
        } else if has_prefix(t, "--completions="@) {
            if let Some(s) = shell_named(t.subrange("--completions="@.len() as int, t.len() as int)) {
                lemma_unknown_reached(argv, i, j + 1, dry_run, Some(s));
            }
        }
    }
}

/// A flag that this program does not know is refused, unless a help or
/// version flag ends resolution first.
pub proof fn unknown_flag_refused(argv: Seq<Seq<char>>, i: int)
    requires
        0 <= i < argv.len(),
        is_flag_like(argv[i]),
        !is_known_flag(argv[i]),
        !(resolution_of(argv) matches Ok(Resolution::Help)),
        !(resolution_of(argv) matches Ok(Resolution::Version)),
    ensures
        resolution_of(argv) is Err,
{
    lemma_unknown_reached(argv, i, 0, false, None);
}

/// Resolving the same argument list twice gives the same result.
pub proof fn resolution_is_deterministic(a: Seq<Seq<char>>, b: Seq<Seq<char>>)
    requires
        a == b,
    ensures
        resolution_of(a) == resolution_of(b),
{
}

} // verus!
