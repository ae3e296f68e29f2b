use cargo_fmt::{CargoFmtStrategy, Opts, Verbosity};

fn strings(items: &[&str]) -> Vec<String> {
    items.iter().map(|s| s.to_string()).collect()
}

#[test]
fn root_is_selected_without_package_flags() {
    let opts = Opts::default();
    assert_eq!(CargoFmtStrategy::from_opts(&opts), CargoFmtStrategy::Root);
}

#[test]
fn all_is_selected_by_the_all_flag() {
    let opts = Opts { format_all: true, ..Opts::default() };
    assert_eq!(CargoFmtStrategy::from_opts(&opts), CargoFmtStrategy::All);
}

#[test]
fn all_wins_over_named_packages() {
    let opts = Opts { format_all: true, packages: strings(&["p1", "p2"]), ..Opts::default() };
    assert_eq!(CargoFmtStrategy::from_opts(&opts), CargoFmtStrategy::All);
}

#[test]
fn named_packages_keep_order_and_duplicates() {
    let opts = Opts { packages: strings(&["zeta", "alpha", "zeta"]), ..Opts::default() };
    assert_eq!(
        CargoFmtStrategy::from_opts(&opts),
        CargoFmtStrategy::Packages(strings(&["zeta", "alpha", "zeta"]))
    );
}

#[test]
fn a_single_named_package_is_selected() {
    let opts = Opts { packages: strings(&["p1"]), ..Opts::default() };
    assert_eq!(CargoFmtStrategy::from_opts(&opts), CargoFmtStrategy::Packages(strings(&["p1"])));
}

#[test]
fn verbosity_is_normal_without_flags() {
    assert_eq!(Verbosity::from_flags(false, false), Ok(Verbosity::Normal));
}

#[test]
fn verbosity_is_quiet_with_the_quiet_flag() {
    assert_eq!(Verbosity::from_flags(false, true), Ok(Verbosity::Quiet));
}

#[test]
fn verbosity_is_verbose_with_the_verbose_flag() {
    assert_eq!(Verbosity::from_flags(true, false), Ok(Verbosity::Verbose));
}

#[test]
fn quiet_and_verbose_together_are_rejected() {
    assert_eq!(
        Verbosity::from_flags(true, true),
        Err("quiet mode and verbose mode are not compatible".to_string())
    );
}
