//! Where a received component came from.

use std::marker::PhantomData;
use vstd::prelude::*;

verus! {

/// Marks a component of kind `TComponent` with the connection or client it
/// came from.
pub struct ComponentOrigin<TComponent, T>(pub T, pub PhantomData<TComponent>);

impl<TComponent, T> ComponentOrigin<TComponent, T> {
    /// Marks a component as coming from `origin_id`.
    pub fn new(origin_id: T) -> (origin: Self)
        ensures
            origin.0 == origin_id,
    {
        ComponentOrigin(origin_id, PhantomData)
    }
}

} // verus!
