use cargo_fmt::{
    resolve, strip_subcommand, CargoFmtStrategy, FormatRequest, Invocation, Opts, Verbosity,
};

fn strings(items: &[&str]) -> Vec<String> {
    items.iter().map(|s| s.to_string()).collect()
}

#[test]
fn the_subcommand_is_dropped() {
    assert_eq!(
        strip_subcommand(strings(&["cargo-fmt", "fmt", "--check"])),
        strings(&["cargo-fmt", "--check"])
    );
}

#[test]
fn only_the_first_subcommand_is_dropped() {
    assert_eq!(
        strip_subcommand(strings(&["cargo-fmt", "fmt", "-p", "fmt", "fmt"])),
        strings(&["cargo-fmt", "-p", "fmt", "fmt"])
    );
}

#[test]
fn arguments_without_the_subcommand_stay() {
    assert_eq!(
        strip_subcommand(strings(&["cargo-fmt", "--all", "format"])),
        strings(&["cargo-fmt", "--all", "format"])
    );
    assert_eq!(strip_subcommand(Vec::new()), Vec::<String>::new());
}

#[test]
fn the_subcommand_alone_leaves_nothing() {
    assert_eq!(strip_subcommand(strings(&["fmt"])), Vec::<String>::new());
}

#[test]
fn no_flags_format_the_root_package() {
    let opts = Opts::default();
    assert_eq!(
        resolve(opts),
        Ok(Invocation::Format(FormatRequest {
            verbosity: Verbosity::Normal,
            strategy: CargoFmtStrategy::Root,
            rustfmt_args: Vec::new(),
            manifest_path: None,
        }))
    );
}

#[test]
fn pass_through_arguments_are_handed_on_as_they_are() {
    let opts = Opts { rustfmt_options: strings(&["--edition", "2018"]), ..Opts::default() };
    assert_eq!(
        resolve(opts),
        Ok(Invocation::Format(FormatRequest {
            verbosity: Verbosity::Normal,
            strategy: CargoFmtStrategy::Root,
            rustfmt_args: strings(&["--edition", "2018"]),
            manifest_path: None,
        }))
    );
}

#[test]
fn version_asks_the_formatter_for_its_version() {
    let opts = Opts {
        version: true,
        check: true,
        format_all: true,
        rustfmt_options: strings(&["--edition", "2018"]),
        manifest_path: Some("nowhere.txt".to_string()),
        message_format: Some("xml".to_string()),
        ..Opts::default()
    };
    assert_eq!(resolve(opts), Ok(Invocation::Info(strings(&["--version"]))));
}

#[test]
fn quiet_and_verbose_fail_even_with_version() {
    let opts = Opts { quiet: true, verbose: true, version: true, ..Opts::default() };
    assert_eq!(resolve(opts), Err("quiet mode and verbose mode are not compatible".to_string()));
}

#[test]
fn an_info_flag_sends_the_pass_through_arguments_alone() {
    let opts = Opts {
        check: true,
        packages: strings(&["p1"]),
        rustfmt_options: strings(&["--edition", "2018", "--help=config"]),
        message_format: Some("json".to_string()),
        ..Opts::default()
    };
    assert_eq!(
        resolve(opts),
        Ok(Invocation::Info(strings(&["--edition", "2018", "--help=config"])))
    );
}

#[test]
fn a_full_command_line_is_resolved() {
    let opts = Opts {
        quiet: true,
        check: true,
        packages: strings(&["p1", "p2"]),
        rustfmt_options: strings(&["--edition", "2018"]),
        manifest_path: Some("some/Cargo.toml".to_string()),
        message_format: Some("short".to_string()),
        ..Opts::default()
    };
    assert_eq!(
        resolve(opts),
        Ok(Invocation::Format(FormatRequest {
            verbosity: Verbosity::Quiet,
            strategy: CargoFmtStrategy::Packages(strings(&["p1", "p2"])),
            rustfmt_args: strings(&["--edition", "2018", "--check", "-l"]),
            manifest_path: Some("some/Cargo.toml".to_string()),
        }))
    );
}

#[test]
fn verbose_and_all_are_resolved() {
    let opts = Opts { verbose: true, format_all: true, ..Opts::default() };
    assert_eq!(
        resolve(opts),
        Ok(Invocation::Format(FormatRequest {
            verbosity: Verbosity::Verbose,
            strategy: CargoFmtStrategy::All,
            rustfmt_args: Vec::new(),
            manifest_path: None,
        }))
    );
}

#[test]
fn check_given_twice_is_passed_once() {
    let opts = Opts { check: true, rustfmt_options: strings(&["--check"]), ..Opts::default() };
    match resolve(opts) {
        Ok(Invocation::Format(request)) => {
            assert_eq!(request.rustfmt_args, strings(&["--check"]));
        }
        other => panic!("{:?}", other),
    }
}

#[test]
fn a_wrong_manifest_path_fails() {
    let opts = Opts { manifest_path: Some("foo/bar.txt".to_string()), ..Opts::default() };
    assert_eq!(
        resolve(opts),
        Err("the manifest-path must be a path to a Cargo.toml file".to_string())
    );
}

#[test]
fn a_manifest_path_is_forwarded() {
    let opts = Opts { manifest_path: Some("foo/Cargo.toml".to_string()), ..Opts::default() };
    match resolve(opts) {
        Ok(Invocation::Format(request)) => {
            assert_eq!(request.manifest_path, Some("foo/Cargo.toml".to_string()));
        }
        other => panic!("{:?}", other),
    }
}

#[test]
fn the_message_format_error_comes_before_the_manifest_path_error() {
    let opts = Opts {
        manifest_path: Some("foo/bar.txt".to_string()),
        message_format: Some("xml".to_string()),
        ..Opts::default()
    };
    assert_eq!(
        resolve(opts),
        Err("invalid --message-format value: xml. Allowed values are: short|json|human"
            .to_string())
    );
}

#[test]
fn json_with_check_mode_fails() {
    let opts = Opts { check: true, message_format: Some("json".to_string()), ..Opts::default() };
    assert_eq!(
        resolve(opts),
        Err("cannot include --check arg when --message-format is set to json".to_string())
    );
}

#[test]
fn json_with_an_emit_mode_passed_through_fails() {
    let opts = Opts {
        rustfmt_options: strings(&["--emit", "files"]),
        message_format: Some("json".to_string()),
        ..Opts::default()
    };
    assert_eq!(
        resolve(opts),
        Err("cannot include --emit arg when --message-format is set to json".to_string())
    );
}
