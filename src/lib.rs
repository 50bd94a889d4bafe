//! Targeting and action application for a turn-based combat tracker.
//!
//! The library holds the logic of the tracker's interactive layer: the keyboard
//! label alphabet, the per-page selection bitsets, the partition of the roster
//! into pages, the selection session, the multi-step action states and the
//! controller that routes each key to one of them.
use vstd::prelude::*;

pub mod labels;
pub mod page;
pub mod roster;
pub mod state;
pub mod ui;

verus! {

} // verus!
