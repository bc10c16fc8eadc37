//! Plain per-node state the consuming graph layer keeps beside the scraped
//! entities: pin and pause flags, a relation tally, and the cycling mode of
//! its origin force. None of it drives the crawl; it travels with the data
//! model.

use vstd::prelude::*;

verus! {

/// Marks a node the user has pinned in place.
#[derive(Copy, Clone, Debug, Default)]
pub struct Pinned;

/// How many relationships touch a node.
#[derive(Copy, Clone, Debug, Default, PartialEq, Eq, Structural)]
pub struct RelationCount {
    pub count: u64,
}

/// Whether the consuming layer's simulation is paused.
#[derive(Copy, Clone, Debug, Default)]
pub struct Paused(pub bool);

/// How strongly nodes are drawn to the origin: by distance, its square, or
/// its cube.
#[derive(Copy, Clone, Debug, PartialEq, Eq, Structural)]
pub enum OriginForceMode {
    Unit,
    Square,
    Cube,
}

impl OriginForceMode {
    /// Steps to the next mode, cycling back to the first after the last.
    pub fn go_to_next(&mut self)
        ensures
            *final(self) == match *old(self) {
                OriginForceMode::Unit => OriginForceMode::Square,
                OriginForceMode::Square => OriginForceMode::Cube,
                OriginForceMode::Cube => OriginForceMode::Unit,
            },
    {
        *self = match *self {
            OriginForceMode::Unit => OriginForceMode::Square,
            OriginForceMode::Square => OriginForceMode::Cube,
            OriginForceMode::Cube => OriginForceMode::Unit,
        }
    }
}

} // verus!
