//! Assembly of the argument list that the formatter is run with.

use vstd::prelude::*;
use crate::flags::{contains_check, scan};
use crate::message_format::{
    convert_message_format_to_rustfmt_args,
    translated_args,
    translation_error,
};
use crate::text::ends_with;

verus! {

/// The arguments with the check-mode flag appended, where check mode is asked for and
/// the flag is not among them yet.
pub open spec fn with_check(args: Seq<Seq<char>>, check: bool) -> Seq<Seq<char>> {
    if check && !contains_check(args) {
        args.push("--check"@)
    } else {
        args
    }
}

/// The formatter's argument list: the pass-through arguments, then the check-mode flag,
/// then what the message format adds; or the error that the message format meets.
pub open spec fn assembled_args(
    pass_through: Seq<Seq<char>>,
    check: bool,
    message_format: Option<Seq<char>>,
) -> Result<Seq<Seq<char>>, Seq<char>> {
    let base = with_check(pass_through, check);
    match message_format {
        None => Ok(base),
        Some(format) => match translation_error(format, base) {
            Some(msg) => Err(msg),
            None => Ok(translated_args(format, base)),
        },
    }
}

/// Error for a manifest path that does not name a manifest file.
pub open spec fn manifest_path_error() -> Seq<char> {
    "the manifest-path must be a path to a Cargo.toml file"@
}

/// A path that names a manifest file: one that ends in `Cargo.toml`.
pub open spec fn names_manifest(path: Seq<char>) -> bool {
    "Cargo.toml"@.is_suffix_of(path)
}

/// Appends the check-mode flag to `args` if `check` is set and the flag is not there yet.
pub fn add_check_flag(args: &mut Vec<String>, check: bool)
    ensures
        final(args).deep_view() == with_check(old(args).deep_view(), check),
{
    if check && !scan(args).check {
        args.push("--check".to_owned());
    }
}

/// Builds the formatter's argument list from the pass-through arguments, the check flag
/// and the message format, in that order.
///
/// Fails exactly when the message format does; the error is the message to report.
pub fn assemble_rustfmt_args(
    pass_through: Vec<String>,
    check: bool,
    message_format: &Option<String>,
) -> (r: Result<Vec<String>, String>)
    ensures
        match r {
            Ok(args) => assembled_args(
                pass_through.deep_view(),
                check,
                message_format.deep_view(),
            ) == Ok::<Seq<Seq<char>>, Seq<char>>(args.deep_view()),
            Err(msg) => assembled_args(
                pass_through.deep_view(),
                check,
                message_format.deep_view(),
            ) == Err::<Seq<Seq<char>>, Seq<char>>(msg@),
        },
{
    let mut rustfmt_args = pass_through;
    add_check_flag(&mut rustfmt_args, check);
    match message_format {
        None => Ok(rustfmt_args),
        Some(format) => {
            match convert_message_format_to_rustfmt_args(format.as_str(), &mut rustfmt_args) {
                Ok(()) => Ok(rustfmt_args),
                Err(msg) => Err(msg),
            }
        },
    }
}

/// Checks that the manifest path, where one is given, names a manifest file, and hands
/// it on unchanged.
///
/// Fails exactly when a path is given that does not end in `Cargo.toml`.
pub fn validate_manifest_path(manifest_path: Option<String>) -> (r: Result<Option<String>, String>)
    ensures
        match r {
            Ok(path) => path == manifest_path && (manifest_path matches Some(p)
                ==> names_manifest(p@)),
            Err(msg) => msg@ == manifest_path_error() && (manifest_path matches Some(p)
                && !names_manifest(p@)),
        },
{
    match manifest_path {
        Some(path) => {
            if !ends_with(path.as_str(), "Cargo.toml") {
                Err("the manifest-path must be a path to a Cargo.toml file".to_owned())
            } else {
                Ok(Some(path))
            }
        },
        None => Ok(None),
    }
}

} // verus!
