//! A name for the work that receives one kind of event.

use std::marker::PhantomData;
use vstd::prelude::*;
use vstd::std_specs::cmp::PartialEqSpecImpl;

verus! {

/// The work that receives events of kind `T`; every value of it names the same group.
#[derive(Debug)]
pub struct ReceiveEventSystems<T>(pub PhantomData<T>);

impl<T> Default for ReceiveEventSystems<T> {
    fn default() -> (set: Self) {
        ReceiveEventSystems(PhantomData)
    }
}

impl<T> Clone for ReceiveEventSystems<T> {
    fn clone(&self) -> (set: Self) {
        ReceiveEventSystems(PhantomData)
    }
}

impl<T> PartialEq for ReceiveEventSystems<T> {
    fn eq(&self, other: &Self) -> (same: bool) {
        true
    }
}

impl<T> PartialEqSpecImpl for ReceiveEventSystems<T> {
    open spec fn obeys_eq_spec() -> bool {
        true
    }

    open spec fn eq_spec(&self, other: &Self) -> bool {
        true
    }
}

impl<T> Eq for ReceiveEventSystems<T> {}

impl<T> std::hash::Hash for ReceiveEventSystems<T> {
    fn hash<H: std::hash::Hasher>(&self, _state: &mut H) {
    }
}

} // verus!
