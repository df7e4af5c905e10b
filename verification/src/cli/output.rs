//! Which messages are shown.

use vstd::prelude::*;

verus! {

/// The verbosity chosen on the command line.
#[derive(Debug, Clone, Copy, PartialEq, Eq)]
pub struct OutputConfig {
    silent: bool,
    quiet: bool,
    verbose_level: u8,
}

impl OutputConfig {
    /// Whether nothing at all is shown.
    pub closed spec fn is_silent(&self) -> bool {
        self.silent
    }

    /// Whether only errors are shown.
    pub closed spec fn is_quiet(&self) -> bool {
        self.quiet
    }

    /// The verbosity level: how many times `-v` was given.
    pub closed spec fn level(&self) -> u8 {
        self.verbose_level
    }

    /// The configuration for the three flags.
    pub fn new(silent: bool, quiet: bool, verbose: u8) -> (config: Self)
        ensures
            config.is_silent() == silent,
            config.is_quiet() == quiet,
            config.level() == verbose,
    {
        Self { silent, quiet, verbose_level: verbose }
    }

    /// Errors are shown unless silent.
    pub fn should_show_error(&self) -> (show: bool)
        ensures
            show == !self.is_silent(),
    {
        !self.silent
    }

    /// Information is shown unless silent or quiet.
    pub fn should_show_info(&self) -> (show: bool)
        ensures
            show == (!self.is_silent() && !self.is_quiet()),
    {
        !self.silent && !self.quiet
    }

    /// Verbose messages are shown from level 2, unless silent or quiet.
    pub fn should_show_verbose(&self) -> (show: bool)
        ensures
            show == (!self.is_silent() && !self.is_quiet() && self.level() >= 2),
    {
        !self.silent && !self.quiet && self.verbose_level >= 2
    }

    /// Debug messages are shown from level 3, unless silent or quiet.
    pub fn should_show_debug(&self) -> (show: bool)
        ensures
            show == (!self.is_silent() && !self.is_quiet() && self.level() >= 3),
    {
        !self.silent && !self.quiet && self.verbose_level >= 3
    }
}

} // verus!
