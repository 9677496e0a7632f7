//! The space the sandbox simulates.
use vstd::prelude::*;

verus! {

/// The two-dimensional space of the sandbox.  It names the instantiation of
/// the engine's generic types with two-dimensional vectors.
#[derive(Debug, Clone)]
pub struct Space2D;

} // verus!
