//! A name for the entity work done for one kind of sendable data.

use std::marker::PhantomData;
use vstd::prelude::*;
use vstd::std_specs::cmp::PartialEqSpecImpl;

verus! {

/// The entity work for sendable data of kind `T`; every value of it names the same group.
#[derive(Debug)]
pub struct HookupEntitySystems<T>(pub PhantomData<T>);

impl<T> Default for HookupEntitySystems<T> {
    fn default() -> (set: Self) {
        HookupEntitySystems(PhantomData)
    }
}

impl<T> Clone for HookupEntitySystems<T> {
    fn clone(&self) -> (set: Self) {
        HookupEntitySystems(PhantomData)
    }
}

impl<T> PartialEq for HookupEntitySystems<T> {
    fn eq(&self, other: &Self) -> (same: bool) {
        true
    }
}

impl<T> PartialEqSpecImpl for HookupEntitySystems<T> {
    open spec fn obeys_eq_spec() -> bool {
        true
    }

    open spec fn eq_spec(&self, other: &Self) -> bool {
        true
    }
}

impl<T> Eq for HookupEntitySystems<T> {}

impl<T> std::hash::Hash for HookupEntitySystems<T> {
    fn hash<H: std::hash::Hasher>(&self, _state: &mut H) {
    }
}

} // verus!
