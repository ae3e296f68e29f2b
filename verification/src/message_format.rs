//! Translation of `--message-format` into the formatter's own flags.

use vstd::prelude::*;
use crate::flags::{contains_check, contains_emit_mode, contains_list_files, scan};
use crate::text::str_eq;

verus! {

/// Error for `json` together with an emit mode.
pub open spec fn emit_conflict() -> Seq<char> {
    "cannot include --emit arg when --message-format is set to json"@
}

/// Error for `json` together with check mode.
pub open spec fn check_conflict() -> Seq<char> {
    "cannot include --check arg when --message-format is set to json"@
}

/// Error for a format name that is none of the accepted three.
pub open spec fn invalid_format(format: Seq<char>) -> Seq<char> {
    "invalid --message-format value: "@ + format + ". Allowed values are: short|json|human"@
}

/// The error that a format name meets on an argument list, if any.
pub open spec fn translation_error(format: Seq<char>, args: Seq<Seq<char>>) -> Option<Seq<char>> {
    if format == "short"@ || format == "human"@ {
        None
    } else if format == "json"@ {
        if contains_emit_mode(args) {
            Some(emit_conflict())
        } else if contains_check(args) {
            Some(check_conflict())
        } else {
            None
        }
    } else {
        Some(invalid_format(format))
    }
}

/// The argument list after a format name has been applied to it.
///
/// Entries are only ever appended; where the translation fails the list stays as it was.
pub open spec fn translated_args(format: Seq<char>, args: Seq<Seq<char>>) -> Seq<Seq<char>> {
    if format == "short"@ && !contains_list_files(args) {
        args.push("-l"@)
    } else if format == "json"@ && !contains_emit_mode(args) && !contains_check(args) {
        args.push("--emit"@).push("json"@)
    } else {
        args
    }
}

/// The three accepted format names are pairwise different.
pub proof fn lemma_format_names_distinct()
    ensures
        "short"@ != "json"@,
        "short"@ != "human"@,
        "json"@ != "human"@,
{
    reveal_strlit("short");
    reveal_strlit("json");
    reveal_strlit("human");
    assert("short"@[0] == 's' && "human"@[0] == 'h');
}

/// Applies the message format `message_format` to the formatter's arguments.
///
/// `short` appends `-l` unless the list of files is already asked for, `json` appends
/// `--emit json` unless an emit mode or check mode is present, which is an error, and
/// `human` changes nothing. Any other name is an error. The error is the message to report.
pub fn convert_message_format_to_rustfmt_args(
    message_format: &str,
    rustfmt_args: &mut Vec<String>,
) -> (r: Result<(), String>)
    ensures
        final(rustfmt_args).deep_view() == translated_args(
            message_format@,
            old(rustfmt_args).deep_view(),
        ),
        match r {
            Ok(()) => translation_error(message_format@, old(rustfmt_args).deep_view()) is None,
            Err(msg) => translation_error(message_format@, old(rustfmt_args).deep_view())
                == Some(msg@),
        },
{
    let found = scan(rustfmt_args);
    proof {
        lemma_format_names_distinct();
    }
    if str_eq(message_format, "short") {
        if !found.list_files {
            rustfmt_args.push("-l".to_owned());
        }
        Ok(())
    } else if str_eq(message_format, "json") {
        if found.emit_mode {
            return Err("cannot include --emit arg when --message-format is set to json".to_owned());
        }
        if found.check {
            return Err(
                "cannot include --check arg when --message-format is set to json".to_owned(),
            );
        }
        rustfmt_args.push("--emit".to_owned());
        rustfmt_args.push("json".to_owned());
        Ok(())
    } else if str_eq(message_format, "human") {
        Ok(())
    } else {
        Err(
            "invalid --message-format value: ".to_owned().concat(message_format).concat(
                ". Allowed values are: short|json|human",
            ),
        )
    }
}

} // verus!
