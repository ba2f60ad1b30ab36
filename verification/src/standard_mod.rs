//! Handles to the mods that ship with the engine.

use vstd::prelude::*;

verus! {

/// References a precompiled, builtin mod.
pub struct StandardMod {
    /// The name of the mod.
    pub name: &'static str,
    /// The binary WASM data for the mod.
    pub module: &'static [u8],
}

} // verus!
