use move_fmt::{ConfigOverrides, EmitMode, FmtCommand, RequestError, Target, Verbosity};

fn text(value: &str) -> Option<String> {
    Some(value.to_string())
}

fn overrides(pairs: &[(&str, &str)]) -> ConfigOverrides {
    let mut config = ConfigOverrides::new();
    for (key, value) in pairs {
        config.insert(key.to_string(), value.to_string());
    }
    config
}

fn request(
    emit_mode: EmitMode,
    file_path: Option<String>,
    dir_path: Option<String>,
) -> FmtCommand {
    FmtCommand::new(emit_mode, file_path, dir_path, None, ConfigOverrides::new(), false, false)
        .unwrap()
}

#[test]
fn diff_of_one_file_with_one_override() {
    let command = FmtCommand::new(
        EmitMode::Diff,
        text("a.move"),
        None,
        None,
        overrides(&[("max_width", "100")]),
        false,
        false,
    )
    .unwrap();
    assert_eq!(
        command.build_arguments(),
        vec!["--emit=diff", "--config=max_width=100", "--file-path=a.move"]
    );
}

#[test]
fn every_emit_mode_is_spelled_in_the_first_argument() {
    let cases = [
        (EmitMode::Overwrite, "--emit=overwrite"),
        (EmitMode::NewFile, "--emit=new_file"),
        (EmitMode::StdOut, "--emit=stdout"),
        (EmitMode::Diff, "--emit=diff"),
    ];
    for (mode, expected) in cases {
        let arguments = request(mode, None, text("sources")).build_arguments();
        assert_eq!(arguments[0], expected);
        let emits = arguments.iter().filter(|argument| argument.starts_with("--emit=")).count();
        assert_eq!(emits, 1);
    }
}

#[test]
fn emit_mode_keywords() {
    assert_eq!(EmitMode::Overwrite.as_str(), "overwrite");
    assert_eq!(EmitMode::NewFile.as_str(), "new_file");
    assert_eq!(EmitMode::StdOut.as_str(), "stdout");
    assert_eq!(EmitMode::Diff.as_str(), "diff");
}

#[test]
fn the_default_emit_mode_overwrites() {
    assert_eq!(EmitMode::default(), EmitMode::Overwrite);
}

#[test]
fn no_target_means_the_current_directory() {
    let command = request(EmitMode::Overwrite, None, None);
    assert_eq!(command.target, Target::Unspecified);
    assert_eq!(command.build_arguments(), vec!["--emit=overwrite", "--dir-path=./"]);
}

#[test]
fn a_file_target_gives_no_directory_argument() {
    let arguments = request(EmitMode::Overwrite, text("sources/a.move"), None).build_arguments();
    assert_eq!(arguments, vec!["--emit=overwrite", "--file-path=sources/a.move"]);
    assert!(!arguments.iter().any(|argument| argument.starts_with("--dir-path")));
}

#[test]
fn a_directory_target_gives_no_file_argument() {
    let arguments = request(EmitMode::Overwrite, None, text("sources")).build_arguments();
    assert_eq!(arguments, vec!["--emit=overwrite", "--dir-path=sources"]);
    assert!(!arguments.iter().any(|argument| argument.starts_with("--file-path")));
}

#[test]
fn both_targets_are_refused() {
    let refused = FmtCommand::new(
        EmitMode::Overwrite,
        text("a.move"),
        text("sources"),
        None,
        ConfigOverrides::new(),
        false,
        false,
    );
    assert_eq!(refused, Err(RequestError::ConflictingTargets));
    assert_eq!(
        Target::from_paths(text("a.move"), text("sources")),
        Err(RequestError::ConflictingTargets)
    );
}

#[test]
fn targets_from_paths() {
    assert_eq!(Target::from_paths(text("a.move"), None), Ok(Target::FilePath("a.move".to_string())));
    assert_eq!(Target::from_paths(None, text("src")), Ok(Target::DirPath("src".to_string())));
    assert_eq!(Target::from_paths(None, None), Ok(Target::Unspecified));
}

#[test]
fn verbosity_from_flags() {
    assert_eq!(Verbosity::from_flags(false, false), Verbosity::Normal);
    assert_eq!(Verbosity::from_flags(true, false), Verbosity::Verbose);
    assert_eq!(Verbosity::from_flags(false, true), Verbosity::Quiet);
    assert_eq!(Verbosity::from_flags(true, true), Verbosity::Verbose);
}

#[test]
fn verbose_wins_over_quiet() {
    let command = FmtCommand::new(
        EmitMode::Overwrite,
        None,
        None,
        None,
        ConfigOverrides::new(),
        true,
        true,
    )
    .unwrap();
    assert_eq!(command.verbosity, Verbosity::Verbose);
    let arguments = command.build_arguments();
    assert_eq!(arguments, vec!["--emit=overwrite", "-v", "--dir-path=./"]);
    assert!(!arguments.contains(&"-q".to_string()));
}

#[test]
fn quiet_alone_gives_the_quiet_switch() {
    let command = FmtCommand::new(
        EmitMode::Overwrite,
        None,
        None,
        None,
        ConfigOverrides::new(),
        false,
        true,
    )
    .unwrap();
    assert_eq!(command.build_arguments(), vec!["--emit=overwrite", "-q", "--dir-path=./"]);
}

#[test]
fn the_configuration_path_follows_the_emit_mode() {
    let command = FmtCommand::new(
        EmitMode::StdOut,
        None,
        text("sources"),
        text("conf/movefmt.toml"),
        ConfigOverrides::new(),
        false,
        false,
    )
    .unwrap();
    assert_eq!(
        command.build_arguments(),
        vec!["--emit=stdout", "--config-path=conf/movefmt.toml", "--dir-path=sources"]
    );
}

#[test]
fn overrides_are_joined_by_commas_in_key_order() {
    let command = FmtCommand::new(
        EmitMode::Overwrite,
        None,
        None,
        None,
        overrides(&[("max_width", "100"), ("indent_size", "2"), ("tab_spaces", "4")]),
        false,
        false,
    )
    .unwrap();
    assert_eq!(
        command.build_arguments(),
        vec!["--emit=overwrite", "--config=indent_size=2,max_width=100,tab_spaces=4", "--dir-path=./"]
    );
}

#[test]
fn no_overrides_no_config_argument() {
    let arguments = request(EmitMode::Overwrite, None, None).build_arguments();
    assert!(!arguments.iter().any(|argument| argument.starts_with("--config=")));
}

#[test]
fn an_override_set_twice_is_written_once() {
    let command = FmtCommand::new(
        EmitMode::Overwrite,
        None,
        None,
        None,
        overrides(&[("max_width", "100"), ("max_width", "120")]),
        false,
        false,
    )
    .unwrap();
    assert_eq!(
        command.build_arguments(),
        vec!["--emit=overwrite", "--config=max_width=120", "--dir-path=./"]
    );
}

#[test]
fn all_arguments_come_in_the_fixed_order() {
    let command = FmtCommand::new(
        EmitMode::NewFile,
        text("a.move"),
        None,
        text("conf"),
        overrides(&[("b", "2"), ("a", "1")]),
        false,
        true,
    )
    .unwrap();
    assert_eq!(
        command.build_arguments(),
        vec!["--emit=new_file", "--config-path=conf", "-q", "--config=a=1,b=2", "--file-path=a.move"]
    );
}

#[test]
fn empty_paths_and_values_are_written_as_they_are() {
    let command = FmtCommand::new(
        EmitMode::Diff,
        text(""),
        None,
        text(""),
        overrides(&[("", "")]),
        true,
        false,
    )
    .unwrap();
    assert_eq!(
        command.build_arguments(),
        vec!["--emit=diff", "--config-path=", "-v", "--config==", "--file-path="]
    );
}
