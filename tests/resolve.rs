use sd_card_backup::args::{resolve_args, ArgError, Resolution, SDCardBackupArgs, USAGE_ERROR_STATUS};
use sd_card_backup::shell::Shell;

fn argv(words: &[&str]) -> Vec<String> {
    words.iter().map(|w| w.to_string()).collect()
}

fn run(dry_run: bool) -> Result<Resolution, ArgError> {
    Ok(Resolution::Run(SDCardBackupArgs { dry_run, completions: None }))
}

#[test]
fn empty_argv_runs_with_defaults() {
    assert_eq!(resolve_args(&argv(&[])), run(false));
}

#[test]
fn dry_run_flag_sets_dry_run() {
    assert_eq!(resolve_args(&argv(&["--dry-run"])), run(true));
}

#[test]
fn fish_completions_are_requested() {
    assert_eq!(
        resolve_args(&argv(&["--completions", "fish"])),
        Ok(Resolution::Completions(Shell::Fish))
    );
}

#[test]
fn completions_win_over_dry_run_in_either_order() {
    assert_eq!(
        resolve_args(&argv(&["--dry-run", "--completions", "zsh"])),
        Ok(Resolution::Completions(Shell::Zsh))
    );
    assert_eq!(
        resolve_args(&argv(&["--completions", "bash", "--dry-run"])),
        Ok(Resolution::Completions(Shell::Bash))
    );
}

#[test]
fn completions_value_may_be_attached() {
    assert_eq!(
        resolve_args(&argv(&["--completions=powershell"])),
        Ok(Resolution::Completions(Shell::PowerShell))
    );
    assert_eq!(
        resolve_args(&argv(&["--completions=nushell"])),
        Err(ArgError::InvalidShell(0))
    );
    assert_eq!(resolve_args(&argv(&["--completions="])), Err(ArgError::InvalidShell(0)));
}

#[test]
fn every_supported_shell_is_accepted() {
    let cases = [
        ("bash", Shell::Bash),
        ("elvish", Shell::Elvish),
        ("fish", Shell::Fish),
        ("powershell", Shell::PowerShell),
        ("zsh", Shell::Zsh),
    ];
    for (name, shell) in cases {
        assert_eq!(
            resolve_args(&argv(&["--completions", name])),
            Ok(Resolution::Completions(shell))
        );
        assert_eq!(Shell::from_name(name), Some(shell));
    }
}

#[test]
fn shell_names_are_case_sensitive() {
    assert_eq!(Shell::from_name("Fish"), None);
    assert_eq!(Shell::from_name("ZSH"), None);
    assert_eq!(Shell::from_name(""), None);
    assert_eq!(Shell::from_name("fis"), None);
}

#[test]
fn unsupported_shell_is_refused() {
    assert_eq!(
        resolve_args(&argv(&["--completions", "tcsh"])),
        Err(ArgError::InvalidShell(1))
    );
    assert_eq!(
        resolve_args(&argv(&["--dry-run", "--completions", "Bash"])),
        Err(ArgError::InvalidShell(2))
    );
}

#[test]
fn unknown_flag_is_refused() {
    assert_eq!(resolve_args(&argv(&["--bogus"])), Err(ArgError::UnknownArgument(0)));
    assert_eq!(
        resolve_args(&argv(&["--dry-run", "-x"])),
        Err(ArgError::UnknownArgument(1))
    );
    assert_eq!(resolve_args(&argv(&["--dry"])), Err(ArgError::UnknownArgument(0)));
    assert_eq!(
        resolve_args(&argv(&["--dry-run=true"])),
        Err(ArgError::UnknownArgument(0))
    );
}

#[test]
fn positional_argument_is_refused() {
    assert_eq!(resolve_args(&argv(&["backup"])), Err(ArgError::UnknownArgument(0)));
    assert_eq!(resolve_args(&argv(&["-"])), Err(ArgError::UnknownArgument(0)));
}

#[test]
fn missing_completions_value_is_refused() {
    assert_eq!(resolve_args(&argv(&["--completions"])), Err(ArgError::MissingValue(0)));
    assert_eq!(
        resolve_args(&argv(&["--completions", "--dry-run"])),
        Err(ArgError::MissingValue(0))
    );
    assert_eq!(
        resolve_args(&argv(&["--completions", "--help"])),
        Err(ArgError::MissingValue(0))
    );
}

#[test]
fn repeated_flags_are_refused() {
    assert_eq!(
        resolve_args(&argv(&["--dry-run", "--dry-run"])),
        Err(ArgError::Repeated(1))
    );
    assert_eq!(
        resolve_args(&argv(&["--completions", "fish", "--completions", "zsh"])),
        Err(ArgError::Repeated(2))
    );
    assert_eq!(
        resolve_args(&argv(&["--completions=fish", "--completions", "nope"])),
        Err(ArgError::Repeated(1))
    );
}

#[test]
fn help_and_version_flags() {
    assert_eq!(resolve_args(&argv(&["--help"])), Ok(Resolution::Help));
    assert_eq!(resolve_args(&argv(&["-h"])), Ok(Resolution::Help));
    assert_eq!(resolve_args(&argv(&["--version"])), Ok(Resolution::Version));
    assert_eq!(resolve_args(&argv(&["-V"])), Ok(Resolution::Version));
    assert_eq!(resolve_args(&argv(&["-hV"])), Ok(Resolution::Help));
}

#[test]
fn first_deciding_argument_wins() {
    assert_eq!(
        resolve_args(&argv(&["--help", "--bogus"])),
        Ok(Resolution::Help)
    );
    assert_eq!(
        resolve_args(&argv(&["--bogus", "--help"])),
        Err(ArgError::UnknownArgument(0))
    );
    assert_eq!(
        resolve_args(&argv(&["--help", "--completions", "tcsh"])),
        Ok(Resolution::Help)
    );
}

#[test]
fn double_dash_ends_flags() {
    assert_eq!(resolve_args(&argv(&["--dry-run", "--"])), run(true));
    assert_eq!(
        resolve_args(&argv(&["--", "--dry-run"])),
        Err(ArgError::UnknownArgument(1))
    );
}

#[test]
fn resolving_twice_gives_the_same_result() {
    for words in [
        vec![],
        vec!["--dry-run"],
        vec!["--completions", "elvish", "--dry-run"],
        vec!["--bogus"],
    ] {
        let a = argv(&words);
        assert_eq!(resolve_args(&a), resolve_args(&a));
    }
}

#[test]
fn usage_error_status_is_two() {
    assert_eq!(USAGE_ERROR_STATUS, 2);
}
