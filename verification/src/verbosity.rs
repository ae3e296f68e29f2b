//! How much the front end reports while it runs.

use vstd::prelude::*;

verus! {

/// Message shown when both the quiet and the verbose flag are given.
pub open spec fn quiet_verbose_conflict() -> Seq<char> {
    "quiet mode and verbose mode are not compatible"@
}

/// Amount of output requested on the command line.
#[derive(Debug, Clone, Copy, PartialEq, Eq, Structural)]
pub enum Verbosity {
    Verbose,
    Normal,
    Quiet,
}

impl Verbosity {
    /// The verbosity that the two flags select, where they select one.
    pub open spec fn of_flags(verbose: bool, quiet: bool) -> Option<Verbosity> {
        match (verbose, quiet) {
            (false, false) => Some(Verbosity::Normal),
            (false, true) => Some(Verbosity::Quiet),
            (true, false) => Some(Verbosity::Verbose),
            (true, true) => None,
        }
    }

    /// Builds the verbosity from the `--verbose` and `--quiet` flags.
    ///
    /// Fails exactly when both flags are set; the error is the message to report.
    pub fn from_flags(verbose: bool, quiet: bool) -> (r: Result<Verbosity, String>)
        ensures
            r is Err <==> verbose && quiet,
            r matches Ok(v) ==> Some(v) == Self::of_flags(verbose, quiet),
            r matches Err(msg) ==> msg@ == quiet_verbose_conflict(),
    {
        match (verbose, quiet) {
            (false, false) => Ok(Verbosity::Normal),
            (false, true) => Ok(Verbosity::Quiet),
            (true, false) => Ok(Verbosity::Verbose),
            (true, true) => Err(String::from_str("quiet mode and verbose mode are not compatible")),
        }
    }
}

} // verus!
