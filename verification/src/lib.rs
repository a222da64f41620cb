//! A deterministic grid-puzzle engine in the box-pushing family, with a
//! progress-tracking layer: tile classification, bounds-checked level grids,
//! a move resolver with chained pushes and one-way gates, a one-slot undo
//! buffer, level packs with improve-only best-score records, and a byte
//! codec for save data.

pub mod codec;
pub mod level;
pub mod moves;
pub mod pack;
pub mod screen;
pub mod tile;
pub mod undo;

use vstd::prelude::*;

verus! {

/// The typed failures the engine reports across its public boundary.
#[derive(Clone, Copy, Debug, PartialEq, Eq, Structural)]
pub enum GameError {
    /// A tile access beyond the grid extent.
    OutOfBounds,
    /// A level or level-pack index beyond the current count.
    InvalidIndex,
    /// An I/O failure while persisting; raised by the unverified shell.
    PersistenceFailure,
    /// Structurally invalid or out-of-range stored values on load.
    MalformedSaveData,
}

} // verus!
