//! From the command line to the one invocation of the formatter that a run makes.

use vstd::prelude::*;
use crate::arguments::{
    assemble_rustfmt_args,
    assembled_args,
    manifest_path_error,
    names_manifest,
    validate_manifest_path,
};
use crate::flags::{contains_info_flag, requests_info};
use crate::opts::{Opts, OptsView};
use crate::strategy::{selected_strategy, CargoFmtStrategy, StrategyView};
use crate::text::str_eq;
use crate::verbosity::{quiet_verbose_conflict, Verbosity};

verus! {

/// The subcommand name that the build tool puts in front of the arguments.
pub open spec fn subcommand() -> Seq<char> {
    "fmt"@
}

/// Drops the first argument that is the subcommand name, and nothing else.
pub fn strip_subcommand(args: Vec<String>) -> (r: Vec<String>)
    ensures
        r.deep_view() == args.deep_view().remove_value(subcommand()),
{
    let ghost all = args.deep_view();
    let mut rest = args;
    let n: usize = rest.len();
    let mut i: usize = 0;
    while i < n
        invariant
            i <= n,
            n == rest@.len(),
            all == args.deep_view(),
            rest.deep_view() == all,
            forall|j: int| 0 <= j < i ==> all[j] != subcommand(),
        decreases n - i,
    {
        if str_eq(rest[i].as_str(), "fmt") {
            proof {
                assert(all[i as int] == subcommand());
                all.index_of_first_ensures(subcommand());
                assert(all.index_of_first(subcommand()) == Some(i as int));
            }
            rest.remove(i);
            return rest;
        }
        i += 1;
    }
    proof {
        all.index_of_first_ensures(subcommand());
    }
    rest
}

/// A request to format packages.
#[derive(Debug, PartialEq)]
pub struct FormatRequest {
    /// How much to report.
    pub verbosity: Verbosity,
    /// Which packages to format.
    pub strategy: CargoFmtStrategy,
    /// Arguments for the formatter.
    pub rustfmt_args: Vec<String>,
    /// Path to the manifest file, where one was given.
    pub manifest_path: Option<String>,
}

/// A format request as plain values.
pub struct FormatRequestView {
    pub verbosity: Verbosity,
    pub strategy: StrategyView,
    pub rustfmt_args: Seq<Seq<char>>,
    pub manifest_path: Option<Seq<char>>,
}

impl View for FormatRequest {
    type V = FormatRequestView;

    open spec fn view(&self) -> FormatRequestView {
        FormatRequestView {
            verbosity: self.verbosity,
            strategy: self.strategy@,
            rustfmt_args: self.rustfmt_args.deep_view(),
            manifest_path: self.manifest_path.deep_view(),
        }
    }
}

/// What a run asks of the formatter.
#[derive(Debug, PartialEq)]
pub enum Invocation {
    /// Run the formatter with exactly these arguments, whatever the packages are.
    Info(Vec<String>),
    /// Format the selected packages.
    Format(FormatRequest),
}

/// An invocation as plain values.
pub enum InvocationView {
    Info(Seq<Seq<char>>),
    Format(FormatRequestView),
}

impl View for Invocation {
    type V = InvocationView;

    open spec fn view(&self) -> InvocationView {
        match self {
            Invocation::Info(args) => InvocationView::Info(args.deep_view()),
            Invocation::Format(request) => InvocationView::Format(request@),
        }
    }
}

/// The invocation that the options resolve to, or the configuration error to report.
///
/// The checks come in this order: the two verbosity flags together are an error; then
/// `--version`, and after it any informational flag among the pass-through arguments,
/// goes to the formatter as it is; then the arguments are assembled, which may fail;
/// last the manifest path is checked.
pub open spec fn resolution(opts: OptsView) -> Result<InvocationView, Seq<char>> {
    match Verbosity::of_flags(opts.verbose, opts.quiet) {
        None => Err(quiet_verbose_conflict()),
        Some(verbosity) => if opts.version {
            Ok(InvocationView::Info(seq!["--version"@]))
        } else if contains_info_flag(opts.rustfmt_options) {
            Ok(InvocationView::Info(opts.rustfmt_options))
        } else {
            match assembled_args(opts.rustfmt_options, opts.check, opts.message_format) {
                Err(msg) => Err(msg),
                Ok(rustfmt_args) => if opts.manifest_path matches Some(path) && !names_manifest(
                    path,
                ) {
                    Err(manifest_path_error())
                } else {
                    Ok(
                        InvocationView::Format(
                            FormatRequestView {
                                verbosity,
                                strategy: selected_strategy(opts.format_all, opts.packages),
                                rustfmt_args,
                                manifest_path: opts.manifest_path,
                            },
                        ),
                    )
                },
            }
        },
    }
}

/// Resolves the options to the invocation of the formatter that the run makes.
///
/// Fails with the message to report where the options contradict each other or name
/// something that is not accepted; nothing is to be run then.
pub fn resolve(opts: Opts) -> (r: Result<Invocation, String>)
    ensures
        match r {
            Ok(invocation) => resolution(opts@) == Ok::<InvocationView, Seq<char>>(invocation@),
            Err(msg) => resolution(opts@) == Err::<InvocationView, Seq<char>>(msg@),
        },
        r matches Ok(Invocation::Format(request)) ==> request.strategy.wf(),
{
    let verbosity = match Verbosity::from_flags(opts.verbose, opts.quiet) {
        Ok(verbosity) => verbosity,
        Err(msg) => {
            return Err(msg);
        },
    };
    if opts.version {
        let mut args: Vec<String> = Vec::new();
        args.push("--version".to_owned());
        assert(args.deep_view() == seq!["--version"@]);
        return Ok(Invocation::Info(args));
    }
    if requests_info(&opts.rustfmt_options) {
        return Ok(Invocation::Info(opts.rustfmt_options));
    }
    let strategy = CargoFmtStrategy::from_opts(&opts);
    let rustfmt_args = match assemble_rustfmt_args(
        opts.rustfmt_options,
        opts.check,
        &opts.message_format,
    ) {
        Ok(args) => args,
        Err(msg) => {
            return Err(msg);
        },
    };
    let manifest_path = match validate_manifest_path(opts.manifest_path) {
        Ok(path) => path,
        Err(msg) => {
            return Err(msg);
        },
    };
    Ok(Invocation::Format(FormatRequest { verbosity, strategy, rustfmt_args, manifest_path }))
}

} // verus!
