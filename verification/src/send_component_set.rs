//! A name for the sending work done for one kind of component.

use std::marker::PhantomData;
use vstd::prelude::*;
use vstd::std_specs::cmp::PartialEqSpecImpl;

verus! {

/// The sending work for components of kind `T`; every value of it names the same group.
#[derive(Debug)]
pub struct SendComponentSet<T>(pub PhantomData<T>);

impl<T> Default for SendComponentSet<T> {
    fn default() -> (set: Self) {
        SendComponentSet(PhantomData)
    }
}

impl<T> Clone for SendComponentSet<T> {
    fn clone(&self) -> (set: Self) {
        SendComponentSet(PhantomData)
    }
}

impl<T> PartialEq for SendComponentSet<T> {
    fn eq(&self, other: &Self) -> (same: bool) {
        true
    }
}

impl<T> PartialEqSpecImpl for SendComponentSet<T> {
    open spec fn obeys_eq_spec() -> bool {
        true
    }

    open spec fn eq_spec(&self, other: &Self) -> bool {
        true
    }
}

impl<T> Eq for SendComponentSet<T> {}

impl<T> std::hash::Hash for SendComponentSet<T> {
    fn hash<H: std::hash::Hasher>(&self, _state: &mut H) {
    }
}

} // verus!
