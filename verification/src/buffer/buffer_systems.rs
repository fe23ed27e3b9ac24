//! Names for the groups of buffer work done for one kind of component.

use std::marker::PhantomData;
use vstd::prelude::*;
use vstd::std_specs::cmp::PartialEqSpecImpl;

verus! {

/// The buffer work on received components of kind `TComponent`.
#[derive(Debug)]
pub struct RecieveBufferSystems<TComponent>(pub PhantomData<TComponent>);

/// The buffer work on owned components of kind `TComponent`.
#[derive(Debug)]
pub struct SendBufferSystems<TComponent>(pub PhantomData<TComponent>);

impl<T> Default for RecieveBufferSystems<T> {
    fn default() -> (set: Self) {
        RecieveBufferSystems(PhantomData)
    }
}

impl<T> Clone for RecieveBufferSystems<T> {
    fn clone(&self) -> (set: Self) {
        RecieveBufferSystems(PhantomData)
    }
}

impl<T> PartialEq for RecieveBufferSystems<T> {
    fn eq(&self, other: &Self) -> (same: bool) {
        true
    }
}

impl<T> PartialEqSpecImpl for RecieveBufferSystems<T> {
    open spec fn obeys_eq_spec() -> bool {
        true
    }

    open spec fn eq_spec(&self, other: &Self) -> bool {
        true
    }
}

impl<T> Eq for RecieveBufferSystems<T> {}

impl<T> std::hash::Hash for RecieveBufferSystems<T> {
    fn hash<H: std::hash::Hasher>(&self, _state: &mut H) {
    }
}

impl<T> Default for SendBufferSystems<T> {
    fn default() -> (set: Self) {
        SendBufferSystems(PhantomData)
    }
}

impl<T> Clone for SendBufferSystems<T> {
    fn clone(&self) -> (set: Self) {
        SendBufferSystems(PhantomData)
    }
}

impl<T> PartialEq for SendBufferSystems<T> {
    fn eq(&self, other: &Self) -> (same: bool) {
        true
    }
}

impl<T> PartialEqSpecImpl for SendBufferSystems<T> {
    open spec fn obeys_eq_spec() -> bool {
        true
    }

    open spec fn eq_spec(&self, other: &Self) -> bool {
        true
    }
}

impl<T> Eq for SendBufferSystems<T> {}

impl<T> std::hash::Hash for SendBufferSystems<T> {
    fn hash<H: std::hash::Hasher>(&self, _state: &mut H) {
    }
}

} // verus!
