//! Finds an installed game through the store's library manifests and plans
//! the scratch directory and the loader command that launch it.
//!
//! The library decides; the program around it reads the filesystem, performs
//! the planned steps and runs the processes.
use vstd::prelude::*;

pub mod error;
pub mod launch;
pub mod paths;
pub mod steam_apps;
pub mod vdf;

verus! {

/// The store id of the game that the launcher loads.
pub const APP_ID: u64 = 1637730;

} // verus!
