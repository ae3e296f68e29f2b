//! What holds of the option rules on every command line, each statement proved from
//! the definitions it speaks of.

use vstd::prelude::*;
use vstd::seq_lib::{to_multiset_build, to_multiset_contains};
use crate::arguments::{assembled_args, manifest_path_error, with_check};
use crate::entry::{resolution, subcommand, FormatRequestView, InvocationView};
use crate::invoke::{status_of_exit, SUCCESS};
use crate::flags::{contains_emit_mode, contains_info_flag, lemma_scan_push};
use crate::message_format::{
    check_conflict,
    emit_conflict,
    invalid_format,
    lemma_format_names_distinct,
    translated_args,
    translation_error,
};
use crate::opts::OptsView;
use crate::strategy::StrategyView;
use crate::verbosity::{quiet_verbose_conflict, Verbosity};

verus! {

/// `word` occurs in `text` as a run of consecutive characters.
pub open spec fn mentions(text: Seq<char>, word: Seq<char>) -> bool {
    exists|i: int, j: int| 0 <= i <= j <= text.len() && #[trigger] text.subrange(i, j) == word
}

/// The number of times the check-mode flag occurs in `args`.
pub open spec fn check_flags(args: Seq<Seq<char>>) -> nat {
    args.to_multiset().count("--check"@)
}

/// A message format never removes or reorders what is in the list: the old list is
/// a prefix of the new one, and it is the new one wherever the translation fails.
pub proof fn law_translation_only_appends(format: Seq<char>, args: Seq<Seq<char>>)
    ensures
        args.is_prefix_of(translated_args(format, args)),
        translation_error(format, args) is Some ==> translated_args(format, args) == args,
        format == "human"@ ==> translated_args(format, args) == args,
{
    lemma_format_names_distinct();
}

/// `short` leaves a list alone that already asks for the list of files, in the long
/// form or the short one, and appends exactly `-l` to any other list. Applied a
/// second time it changes nothing.
pub proof fn law_short_is_idempotent(args: Seq<Seq<char>>)
    ensures
        translation_error("short"@, args) is None,
        args.contains("--files-with-diff"@) ==> translated_args("short"@, args) == args,
        args.contains("-l"@) ==> translated_args("short"@, args) == args,
        !args.contains("--files-with-diff"@) && !args.contains("-l"@) ==> translated_args(
            "short"@,
            args,
        ) == args.push("-l"@),
        translated_args("short"@, translated_args("short"@, args)) == translated_args(
            "short"@,
            args,
        ),
{
    lemma_format_names_distinct();
    lemma_scan_push(args, "-l"@);
}

/// `json` on a list with an emit mode fails with a message that mentions `--emit`; on a
/// list with the check-mode flag and no emit mode it fails with a message that mentions
/// `--check`; on any other list it succeeds and appends exactly `--emit`, then `json`.
/// What it appends is an emit mode itself, so a second `json` on the result is refused.
pub proof fn law_json_conflicts(args: Seq<Seq<char>>)
    ensures
        translation_error("json"@, args) is None ==> translation_error(
            "json"@,
            translated_args("json"@, args),
        ) == Some(emit_conflict()),
        contains_emit_mode(args) ==> translation_error("json"@, args) == Some(emit_conflict()),
        !contains_emit_mode(args) && args.contains("--check"@) ==> translation_error(
            "json"@,
            args,
        ) == Some(check_conflict()),
        !contains_emit_mode(args) && !args.contains("--check"@) ==> translation_error(
            "json"@,
            args,
        ) is None && translated_args("json"@, args) == args + seq!["--emit"@, "json"@],
        mentions(emit_conflict(), "--emit"@),
        mentions(check_conflict(), "--check"@),
{
    lemma_format_names_distinct();
    lemma_scan_push(args, "--emit"@);
    lemma_scan_push(args.push("--emit"@), "json"@);
    reveal_strlit("cannot include --emit arg when --message-format is set to json");
    reveal_strlit("cannot include --check arg when --message-format is set to json");
    reveal_strlit("--emit");
    reveal_strlit("--check");
    assert(emit_conflict().subrange(15, 21) =~= "--emit"@);
    assert(check_conflict().subrange(15, 22) =~= "--check"@);
}

/// A format name other than `short`, `json` and `human` fails on every list, with a
/// message that mentions the name and the three accepted names, in this order:
/// `short|json|human`.
pub proof fn law_unknown_format_is_named(format: Seq<char>, args: Seq<Seq<char>>)
    requires
        format != "short"@,
        format != "json"@,
        format != "human"@,
    ensures
        translation_error(format, args) == Some(invalid_format(format)),
        translated_args(format, args) == args,
        mentions(invalid_format(format), format),
        mentions(invalid_format(format), "short|json|human"@),
{
    let head = "invalid --message-format value: "@;
    let msg = invalid_format(format);
    let at = head.len() as int;
    assert(msg.subrange(at, at + format.len()) =~= format);
    reveal_strlit(". Allowed values are: short|json|human");
    reveal_strlit("short|json|human");
    let names = at + format.len() + 22;
    assert(msg.subrange(names, names + "short|json|human"@.len()) =~= "short|json|human"@);
}

/// Check mode asked for by flag puts the check-mode flag into the list only where it
/// is missing: the assembled list holds it once if the pass-through arguments held it
/// once or not at all, and no message format adds or removes one.
pub proof fn law_check_flag_once(
    pass_through: Seq<Seq<char>>,
    check: bool,
    message_format: Option<Seq<char>>,
)
    requires
        assembled_args(pass_through, check, message_format) is Ok,
    ensures
        check_flags(assembled_args(pass_through, check, message_format)->Ok_0) == if check
            && check_flags(pass_through) == 0 {
            1nat
        } else {
            check_flags(pass_through)
        },
        with_check(with_check(pass_through, check), check) == with_check(pass_through, check),
{
    let flag = "--check"@;
    let base = with_check(pass_through, check);
    to_multiset_contains(pass_through, flag);
    to_multiset_build(pass_through, flag);
    lemma_scan_push(pass_through, flag);
    reveal_strlit("--check");
    reveal_strlit("-l");
    reveal_strlit("--emit");
    reveal_strlit("json");
    assert("-l"@ != flag && "--emit"@ != flag && "json"@ != flag);
    to_multiset_build(base, "-l"@);
    to_multiset_build(base, "--emit"@);
    to_multiset_build(base.push("--emit"@), "json"@);
}

/// Of the arguments, the first one that is the subcommand name is dropped and no other:
/// what stands before it and what follows it stay, in their order, later occurrences of
/// the name among them.
pub proof fn law_subcommand_dropped_once(args: Seq<Seq<char>>, first: int)
    requires
        0 <= first < args.len(),
        args[first] == subcommand(),
        forall|j: int| 0 <= j < first ==> args[j] != subcommand(),
    ensures
        args.remove_value(subcommand()) == args.take(first) + args.skip(first + 1),
{
    args.index_of_first_ensures(subcommand());
    assert(args.index_of_first(subcommand()) == Some(first));
}

/// Arguments without the subcommand name stay as they are.
pub proof fn law_without_subcommand_unchanged(args: Seq<Seq<char>>)
    requires
        !args.contains(subcommand()),
    ensures
        args.remove_value(subcommand()) == args,
{
    args.index_of_first_ensures(subcommand());
}

/// With `--version`, and not both verbosity flags, the formatter is asked for its
/// version with exactly `--version`, whatever else is on the command line.
pub proof fn law_version_goes_straight_through(opts: OptsView)
    requires
        opts.version,
        !(opts.quiet && opts.verbose),
    ensures
        resolution(opts) == Ok::<InvocationView, Seq<char>>(
            InvocationView::Info(seq!["--version"@]),
        ),
{
}

/// With no flag set and no informational argument passed through, the run formats the
/// root package at normal verbosity, with the pass-through arguments and nothing more.
pub proof fn law_defaults(opts: OptsView)
    requires
        !opts.quiet && !opts.verbose && !opts.version && !opts.format_all && !opts.check,
        opts.packages.len() == 0,
        opts.manifest_path is None,
        opts.message_format is None,
        !contains_info_flag(opts.rustfmt_options),
    ensures
        resolution(opts) == Ok::<InvocationView, Seq<char>>(
            InvocationView::Format(
                FormatRequestView {
                    verbosity: Verbosity::Normal,
                    strategy: StrategyView::Root,
                    rustfmt_args: opts.rustfmt_options,
                    manifest_path: None,
                },
            ),
        ),
{
}

/// A formatter that fails with an exit code has that very code handed on; one that
/// succeeds gives `SUCCESS`, whatever code came with it.
pub proof fn law_exit_code_is_handed_on(code: i32)
    ensures
        status_of_exit(false, Some(code)) == code,
        status_of_exit(true, Some(code)) == SUCCESS,
        status_of_exit(true, None) == SUCCESS,
{
}

/// Whatever the flags add, the formatter gets the pass-through arguments first, as
/// they were given.
pub proof fn law_pass_through_comes_first(opts: OptsView)
    ensures
        resolution(opts) matches Ok(InvocationView::Format(request))
            ==> opts.rustfmt_options.is_prefix_of(request.rustfmt_args),
        resolution(opts) matches Ok(InvocationView::Info(args)) ==> args == seq!["--version"@]
            || args == opts.rustfmt_options,
{
    let base = with_check(opts.rustfmt_options, opts.check);
    assert(opts.rustfmt_options.is_prefix_of(base));
    if opts.message_format is Some {
        law_translation_only_appends(opts.message_format->0, base);
    }
}

/// Every configuration error is one of five: both verbosity flags, `json` beside an
/// emit mode, `json` beside check mode, an unknown format name, or a manifest path
/// that names no manifest.
pub proof fn law_configuration_errors(opts: OptsView)
    ensures
        resolution(opts) matches Err(msg) ==> {
            ||| msg == quiet_verbose_conflict()
            ||| msg == emit_conflict()
            ||| msg == check_conflict()
            ||| opts.message_format matches Some(format) && msg == invalid_format(format)
            ||| msg == manifest_path_error()
        },
{
}

/// Both verbosity flags together are an error whatever else is asked for, `--version`
/// included; an informational argument passed through wins over everything but that.
pub proof fn law_resolution_order(opts: OptsView)
    ensures
        opts.quiet && opts.verbose ==> resolution(opts) is Err,
        !(opts.quiet && opts.verbose) && !opts.version && contains_info_flag(
            opts.rustfmt_options,
        ) ==> resolution(opts) == Ok::<InvocationView, Seq<char>>(
            InvocationView::Info(opts.rustfmt_options),
        ),
{
}

} // verus!
