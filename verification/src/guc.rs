//! Debug toggles of the extension: which of the two federation paths are
//! switched off.
//!
//! Registering these settings with the host engine's configuration system
//! is outside this library; the values and their defaults live here.

use vstd::prelude::*;

verus! {

/// The debug settings: disable the executor hook, disable the foreign-data
/// wrappers, or disable the columnar engine path of the executor hook.
pub struct DebugGucSettings {
    pub disable_executor: bool,
    pub disable_fdw: bool,
    pub disable_datafusion: bool,
}

impl DebugGucSettings {
    /// The default toggles: both federation paths on, the columnar engine
    /// path of the executor hook off.
    pub fn new() -> (r: Self)
        ensures
            !r.disable_executor,
            !r.disable_fdw,
            r.disable_datafusion,
    {
        DebugGucSettings { disable_executor: false, disable_fdw: false, disable_datafusion: true }
    }
}

impl Default for DebugGucSettings {
    fn default() -> (r: Self)
        ensures
            !r.disable_executor,
            !r.disable_fdw,
            r.disable_datafusion,
    {
        Self::new()
    }
}

} // verus!
