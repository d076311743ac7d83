//! The configuration of an engine.

use vstd::prelude::*;

verus! {

/// The proposals an engine accepts and the limits it runs under.
#[derive(Clone, Copy, Debug, PartialEq, Eq, Structural)]
pub struct Config {
    /// The sign-extension operators are accepted.
    pub sign_extension: bool,
    /// The saturating float-to-int conversions are accepted.
    pub saturating_float_to_int: bool,
    /// The greatest number of values the value stack may hold.
    pub max_stack_height: usize,
    /// The greatest number of calls that may be active at once.
    pub max_recursion_depth: usize,
}

impl Config {
    /// The default configuration: both proposals are accepted, the value
    /// stack holds up to 2^20 values and 2^16 calls may be active at once.
    pub open spec fn spec_default() -> Config {
        Config {
            sign_extension: true,
            saturating_float_to_int: true,
            max_stack_height: 0x10_0000,
            max_recursion_depth: 0x1_0000,
        }
    }
}

impl Default for Config {
    fn default() -> (config: Config)
        ensures
            config == Config::spec_default(),
    {
        Config {
            sign_extension: true,
            saturating_float_to_int: true,
            max_stack_height: 0x10_0000,
            max_recursion_depth: 0x1_0000,
        }
    }
}

} // verus!
