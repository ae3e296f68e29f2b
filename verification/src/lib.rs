//! Option resolution for a front end that hands source packages to an external formatter.
//!
//! The command line selects which packages to format, how much to report and what to
//! pass on to the formatter. This library turns the parsed options into the one
//! invocation of the formatter that a run makes, or into the configuration error to
//! report, and maps the end of that invocation to an exit status.

pub mod arguments;
pub mod entry;
pub mod flags;
pub mod invoke;
pub mod laws;
pub mod message_format;
pub mod opts;
pub mod strategy;
mod text;
pub mod verbosity;

pub use arguments::{add_check_flag, assemble_rustfmt_args, validate_manifest_path};
pub use entry::{resolve, strip_subcommand, FormatRequest, Invocation};
pub use flags::{info_flag, requests_info, scan, Scan};
pub use invoke::{
    exit_code, handle_command_status, launch_failure, rustfmt_path, Outcome, FAILURE, SUCCESS,
};
pub use message_format::convert_message_format_to_rustfmt_args;
pub use opts::Opts;
pub use strategy::CargoFmtStrategy;
pub use verbosity::Verbosity;
