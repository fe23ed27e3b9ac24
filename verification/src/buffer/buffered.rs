//! A value kept back by a buffer.

use vstd::prelude::*;

verus! {

/// A component value held back by a buffer instead of being shown.
#[derive(Debug)]
pub struct Buffered<TComponent>(pub TComponent);

} // verus!
