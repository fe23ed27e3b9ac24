//! Marks where something came from.

use vstd::prelude::*;

verus! {

/// The connection, session or client something came from.
#[derive(Debug, Clone, Copy)]
pub struct Origin<T>(pub T);

} // verus!
