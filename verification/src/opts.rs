//! The options accepted on the command line.

use vstd::prelude::*;

verus! {

/// The parsed command line.
#[derive(Debug, Default)]
pub struct Opts {
    /// No output printed to stdout.
    pub quiet: bool,
    /// Use verbose output.
    pub verbose: bool,
    /// Print the formatter's version and exit.
    pub version: bool,
    /// Packages to format, in the order given.
    pub packages: Vec<String>,
    /// Path to the manifest file.
    pub manifest_path: Option<String>,
    /// Requested message format: `short`, `json` or `human`.
    pub message_format: Option<String>,
    /// Options passed through to the formatter.
    pub rustfmt_options: Vec<String>,
    /// Format all packages, and also their local path-based dependencies.
    pub format_all: bool,
    /// Run the formatter in check mode.
    pub check: bool,
}

/// The options as plain values: every string is the sequence of its characters.
pub struct OptsView {
    pub quiet: bool,
    pub verbose: bool,
    pub version: bool,
    pub packages: Seq<Seq<char>>,
    pub manifest_path: Option<Seq<char>>,
    pub message_format: Option<Seq<char>>,
    pub rustfmt_options: Seq<Seq<char>>,
    pub format_all: bool,
    pub check: bool,
}

impl View for Opts {
    type V = OptsView;

    open spec fn view(&self) -> OptsView {
        OptsView {
            quiet: self.quiet,
            verbose: self.verbose,
            version: self.version,
            packages: self.packages.deep_view(),
            manifest_path: self.manifest_path.deep_view(),
            message_format: self.message_format.deep_view(),
            rustfmt_options: self.rustfmt_options.deep_view(),
            format_all: self.format_all,
            check: self.check,
        }
    }
}

} // verus!
