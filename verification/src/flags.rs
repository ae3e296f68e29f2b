//! The formatter flags that the option rules look for in an argument list.

use vstd::prelude::*;
use crate::text::{starts_with, str_eq};

verus! {

/// An argument that selects an emit mode: anything beginning with `--emit`.
pub open spec fn is_emit_mode(arg: Seq<char>) -> bool {
    "--emit"@.is_prefix_of(arg)
}

/// The check-mode flag.
pub open spec fn is_check(arg: Seq<char>) -> bool {
    arg == "--check"@
}

/// An argument that asks for the list of files with a diff, in its short or long form.
pub open spec fn is_list_files(arg: Seq<char>) -> bool {
    arg == "-l"@ || arg == "--files-with-diff"@
}

/// An argument that only asks the formatter about itself: its configuration, its help
/// or its version.
pub open spec fn is_info_flag(arg: Seq<char>) -> bool {
    ||| arg == "--print-config"@
    ||| arg == "-h"@
    ||| arg == "--help"@
    ||| arg == "-V"@
    ||| arg == "--version"@
    ||| "--help="@.is_prefix_of(arg)
    ||| "--print-config="@.is_prefix_of(arg)
}

/// Some argument selects an emit mode.
pub open spec fn contains_emit_mode(args: Seq<Seq<char>>) -> bool {
    exists|i: int| 0 <= i < args.len() && is_emit_mode(#[trigger] args[i])
}

/// The check-mode flag is among the arguments.
pub open spec fn contains_check(args: Seq<Seq<char>>) -> bool {
    args.contains("--check"@)
}

/// Some argument asks for the list of files with a diff.
pub open spec fn contains_list_files(args: Seq<Seq<char>>) -> bool {
    args.contains("-l"@) || args.contains("--files-with-diff"@)
}

/// Some argument only asks the formatter about itself.
pub open spec fn contains_info_flag(args: Seq<Seq<char>>) -> bool {
    exists|i: int| 0 <= i < args.len() && is_info_flag(#[trigger] args[i])
}

/// Appending one argument adds its own answer to each scan of the list.
pub proof fn lemma_scan_push(args: Seq<Seq<char>>, arg: Seq<char>)
    ensures
        contains_emit_mode(args.push(arg)) == (contains_emit_mode(args) || is_emit_mode(arg)),
        contains_check(args.push(arg)) == (contains_check(args) || is_check(arg)),
        contains_list_files(args.push(arg)) == (contains_list_files(args) || is_list_files(arg)),
        contains_info_flag(args.push(arg)) == (contains_info_flag(args) || is_info_flag(arg)),
{
    let more = args.push(arg);
    assert(more[args.len() as int] == arg);
    lemma_contains_push(args, arg, "--check"@);
    lemma_contains_push(args, arg, "-l"@);
    lemma_contains_push(args, arg, "--files-with-diff"@);
    if contains_emit_mode(args) {
        let i = choose|i: int| 0 <= i < args.len() && is_emit_mode(#[trigger] args[i]);
        assert(is_emit_mode(more[i]));
    }
    if contains_info_flag(args) {
        let i = choose|i: int| 0 <= i < args.len() && is_info_flag(#[trigger] args[i]);
        assert(is_info_flag(more[i]));
    }
}

/// A list with one more argument contains what the list did, and that argument.
proof fn lemma_contains_push(args: Seq<Seq<char>>, arg: Seq<char>, wanted: Seq<char>)
    ensures
        args.push(arg).contains(wanted) == (args.contains(wanted) || arg == wanted),
{
    let more = args.push(arg);
    assert(more[args.len() as int] == arg);
    if args.contains(wanted) {
        let i = args.index_of(wanted);
        assert(more[i] == wanted);
    }
}

/// What one pass over an argument list finds.
#[derive(Debug, Clone, Copy, PartialEq, Eq, Structural)]
pub struct Scan {
    /// Some argument selects an emit mode.
    pub emit_mode: bool,
    /// The check-mode flag is present.
    pub check: bool,
    /// Some argument asks for the list of files with a diff.
    pub list_files: bool,
}

/// What a pass over `args` finds.
pub open spec fn scan_of(args: Seq<Seq<char>>) -> Scan {
    Scan {
        emit_mode: contains_emit_mode(args),
        check: contains_check(args),
        list_files: contains_list_files(args),
    }
}

/// Tells whether `arg` only asks the formatter about itself.
pub fn info_flag(arg: &str) -> (r: bool)
    ensures
        r == is_info_flag(arg@),
{
    str_eq(arg, "--print-config") || str_eq(arg, "-h") || str_eq(arg, "--help") || str_eq(
        arg,
        "-V",
    ) || str_eq(arg, "--version") || starts_with(arg, "--help=") || starts_with(
        arg,
        "--print-config=",
    )
}

/// Tells whether some argument of `args` only asks the formatter about itself.
pub fn requests_info(args: &Vec<String>) -> (r: bool)
    ensures
        r == contains_info_flag(args.deep_view()),
{
    let ghost all = args.deep_view();
    let n: usize = args.len();
    for i in 0..n
        invariant
            n == args@.len(),
            all == args.deep_view(),
            !contains_info_flag(all.take(i as int)),
    {
        if info_flag(args[i].as_str()) {
            assert(is_info_flag(all[i as int]));
            return true;
        }
    }
    assert(all.take(n as int) == all);
    false
}

/// Looks through `args` once for the flags that the message format and check mode
/// depend on.
pub fn scan(args: &Vec<String>) -> (r: Scan)
    ensures
        r == scan_of(args.deep_view()),
{
    let ghost all = args.deep_view();
    let mut found = Scan { emit_mode: false, check: false, list_files: false };
    let n: usize = args.len();
    for i in 0..n
        invariant
            n == args@.len(),
            all == args.deep_view(),
            found == scan_of(all.take(i as int)),
    {
        let arg = args[i].as_str();
        proof {
            assert(all.take(i + 1) == all.take(i as int).push(all[i as int]));
            lemma_scan_push(all.take(i as int), all[i as int]);
        }
        if starts_with(arg, "--emit") {
            found.emit_mode = true;
        }
        if str_eq(arg, "--check") {
            found.check = true;
        }
        if str_eq(arg, "-l") || str_eq(arg, "--files-with-diff") {
            found.list_files = true;
        }
    }
    assert(all.take(n as int) == all);
    found
}

} // verus!
