use vstd::prelude::*;

verus! {

/// An opaque, integer-backed identifier for a grammar symbol.
///
/// The provenance layer only compares symbols for equality; allocation of
/// fresh symbols is the concern of the surrounding grammar builder.
#[derive(Clone, Copy, Debug, PartialEq, Eq, PartialOrd, Ord, Hash, Structural)]
pub struct Symbol(pub u32);

} // verus!
