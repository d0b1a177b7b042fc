//! Handles of the entities of the scene.

use vstd::prelude::*;

verus! {

/// Handle of an entity of the scene.
#[derive(Clone, Copy, Debug, PartialEq, Eq, Hash, Structural)]
pub struct Entity(pub u64);

} // verus!
