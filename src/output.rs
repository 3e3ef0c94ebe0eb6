//! Output settings and the plain formats: porcelain lines and aligned tables.
use vstd::prelude::*;

pub mod porcelain;
pub mod table;

verus! {

/// How much the program says.
#[derive(Debug, Clone, Copy, PartialEq, Eq, Structural)]
pub enum Verbosity {
    /// Only errors and what was asked for.
    Quiet,
    Normal,
    /// Debug output too.
    Verbose,
}

/// Output settings, decided once at start-up.
#[derive(Debug, Clone, Copy)]
pub struct OutputConfig {
    color: bool,
    verbosity: Verbosity,
}

impl OutputConfig {
    pub closed spec fn color_spec(&self) -> bool {
        self.color
    }

    pub closed spec fn verbosity_spec(&self) -> Verbosity {
        self.verbosity
    }

    /// Settings from the flags, whether `NO_COLOR` is set, and whether the
    /// output is a terminal: colour only on a terminal with neither opt-out;
    /// quiet wins over verbose.
    pub fn new(no_color: bool, quiet: bool, verbose: bool, is_tty: bool, no_color_env: bool) -> (r: Self)
        ensures
            r.color_spec() == (!no_color && !no_color_env && is_tty),
            r.verbosity_spec() == (if quiet {
                Verbosity::Quiet
            } else if verbose {
                Verbosity::Verbose
            } else {
                Verbosity::Normal
            }),
    {
        let color = !no_color && !no_color_env && is_tty;
        let verbosity = if quiet {
            Verbosity::Quiet
        } else if verbose {
            Verbosity::Verbose
        } else {
            Verbosity::Normal
        };
        OutputConfig { color, verbosity }
    }

    pub fn should_color(&self) -> (r: bool)
        ensures
            r == self.color_spec(),
    {
        self.color
    }

    pub fn is_quiet(&self) -> (r: bool)
        ensures
            r == (self.verbosity_spec() == Verbosity::Quiet),
    {
        self.verbosity == Verbosity::Quiet
    }

    pub fn is_verbose(&self) -> (r: bool)
        ensures
            r == (self.verbosity_spec() == Verbosity::Verbose),
    {
        self.verbosity == Verbosity::Verbose
    }

    pub fn verbosity(&self) -> (r: Verbosity)
        ensures
            r == self.verbosity_spec(),
    {
        self.verbosity
    }
}

} // verus!
