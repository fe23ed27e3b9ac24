//! A name for the work that sends entities.

use std::marker::PhantomData;
use vstd::prelude::*;
use vstd::std_specs::cmp::PartialEqSpecImpl;

verus! {

/// The work that sends entities of kind `T`; every value of it names the same group.
#[derive(Debug)]
pub struct SendEntitySystems<T>(pub PhantomData<T>);

impl<T> Default for SendEntitySystems<T> {
    fn default() -> (set: Self) {
        SendEntitySystems(PhantomData)
    }
}

impl<T> Clone for SendEntitySystems<T> {
    fn clone(&self) -> (set: Self) {
        SendEntitySystems(PhantomData)
    }
}

impl<T> PartialEq for SendEntitySystems<T> {
    fn eq(&self, other: &Self) -> (same: bool) {
        true
    }
}

impl<T> PartialEqSpecImpl for SendEntitySystems<T> {
    open spec fn obeys_eq_spec() -> bool {
        true
    }

    open spec fn eq_spec(&self, other: &Self) -> bool {
        true
    }
}

impl<T> Eq for SendEntitySystems<T> {}

impl<T> std::hash::Hash for SendEntitySystems<T> {
    fn hash<H: std::hash::Hasher>(&self, _state: &mut H) {
    }
}

} // verus!
