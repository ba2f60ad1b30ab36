//! Decision core of a first-person character controller for a voxel world.
//!
//! The host decodes input, casts rays and moves the player; this crate decides,
//! from plain values, which item is selected, when a voxel edit fires, and how a
//! physics body is picked up, held and released.

pub mod actions;
pub mod controller;
pub mod drag;
pub mod edit;
pub mod input;
pub mod motion;
pub mod selector;
pub mod standard_mod;
pub mod world;
