//! Decisions around the run of the formatter: which executable, and what its end means.

use vstd::prelude::*;

verus! {

/// Exit status of a run that went well.
pub const SUCCESS: i32 = 0;

/// Exit status of a run that failed before or while starting the formatter.
pub const FAILURE: i32 = 1;

/// Name under which the formatter is looked up where nothing else is configured.
pub open spec fn default_formatter() -> Seq<char> {
    "rustfmt"@
}

/// Message for a formatter that could not be found.
pub open spec fn not_found_message() -> Seq<char> {
    "Could not run rustfmt, please make sure it is in your PATH."@
}

/// The executable to run: the configured override where there is one, else the
/// default name, to be found on the search path.
pub fn rustfmt_path(configured: Option<String>) -> (r: String)
    ensures
        r@ == match configured {
            Some(path) => path@,
            None => default_formatter(),
        },
{
    match configured {
        None => "rustfmt".to_owned(),
        Some(path) => path,
    }
}

/// The message for a formatter that could not be started: a fixed hint where the
/// executable was not found, else the cause as the system gave it.
pub fn launch_failure(not_found: bool, cause: String) -> (r: String)
    ensures
        r@ == if not_found {
            not_found_message()
        } else {
            cause@
        },
{
    if not_found {
        "Could not run rustfmt, please make sure it is in your PATH.".to_owned()
    } else {
        cause
    }
}

/// The status that a finished formatter hands on: success is `SUCCESS`, a failure is
/// the formatter's own exit code, and `SUCCESS` where it ended without one.
pub open spec fn status_of_exit(success: bool, code: Option<i32>) -> i32 {
    if success {
        SUCCESS
    } else {
        match code {
            Some(c) => c,
            None => SUCCESS,
        }
    }
}

/// Maps the end of the formatter's process to the status to exit with.
pub fn exit_code(success: bool, code: Option<i32>) -> (r: i32)
    ensures
        r == status_of_exit(success, code),
{
    if success {
        SUCCESS
    } else {
        match code {
            Some(c) => c,
            None => SUCCESS,
        }
    }
}

/// How a run ends: the status to exit with and, for a failure of this program's own,
/// the message to print together with the usage help.
#[derive(Debug, PartialEq)]
pub struct Outcome {
    /// Status to exit with.
    pub exit_code: i32,
    /// Message for the error stream, if any.
    pub report: Option<String>,
}

/// Turns the result of an invocation into the way the run ends.
///
/// A status is handed on as it is, with nothing to report; an error exits with
/// `FAILURE` and is reported.
pub fn handle_command_status(status: Result<i32, String>) -> (r: Outcome)
    ensures
        match status {
            Ok(code) => r.exit_code == code && r.report is None,
            Err(msg) => r.exit_code == FAILURE && r.report == Some(msg),
        },
{
    match status {
        Err(msg) => Outcome { exit_code: FAILURE, report: Some(msg) },
        Ok(code) => Outcome { exit_code: code, report: None },
    }
}

} // verus!
