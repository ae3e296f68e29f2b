//! Which packages a run formats.

use vstd::prelude::*;
use crate::opts::Opts;

verus! {

/// The scope of a formatting run.
#[derive(Debug, PartialEq)]
pub enum CargoFmtStrategy {
    /// Format every package, and also their local path-based dependencies.
    All,
    /// Format the packages that are named, in the order given.
    Packages(Vec<String>),
    /// Format the root package only.
    Root,
}

/// A strategy as plain values.
pub enum StrategyView {
    All,
    Packages(Seq<Seq<char>>),
    Root,
}

impl View for CargoFmtStrategy {
    type V = StrategyView;

    open spec fn view(&self) -> StrategyView {
        match self {
            CargoFmtStrategy::All => StrategyView::All,
            CargoFmtStrategy::Packages(names) => StrategyView::Packages(names.deep_view()),
            CargoFmtStrategy::Root => StrategyView::Root,
        }
    }
}

/// The strategy that the package flags select: `--all` wins over named packages, named
/// packages win over the root package.
pub open spec fn selected_strategy(format_all: bool, packages: Seq<Seq<char>>) -> StrategyView {
    if format_all {
        StrategyView::All
    } else if packages.len() > 0 {
        StrategyView::Packages(packages)
    } else {
        StrategyView::Root
    }
}

impl StrategyView {
    /// A strategy that names packages names at least one.
    pub open spec fn wf(self) -> bool {
        self matches StrategyView::Packages(names) ==> names.len() > 0
    }
}

impl CargoFmtStrategy {
    /// A strategy that names packages names at least one.
    pub open spec fn wf(&self) -> bool {
        self@.wf()
    }

    /// Selects the strategy from the package flags of `opts`.
    pub fn from_opts(opts: &Opts) -> (r: CargoFmtStrategy)
        ensures
            opts.format_all ==> r@ == StrategyView::All,
            !opts.format_all && opts.packages@.len() > 0 ==> r@ == StrategyView::Packages(
                opts.packages.deep_view(),
            ),
            !opts.format_all && opts.packages@.len() == 0 ==> r@ == StrategyView::Root,
            r@ == selected_strategy(opts.format_all, opts.packages.deep_view()),
            r.wf(),
    {
        match (opts.format_all, opts.packages.is_empty()) {
            (false, true) => CargoFmtStrategy::Root,
            (true, _) => CargoFmtStrategy::All,
            (false, false) => CargoFmtStrategy::Packages(opts.packages.clone()),
        }
    }
}

} // verus!
