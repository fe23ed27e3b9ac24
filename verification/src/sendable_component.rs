//! How a component turns into the type a session sends, and back.

use vstd::prelude::*;

verus! {

/// Converts a component to and from the sendable type `TSendable`.
/// Implemented by the users of this library.
pub trait SendableComponent<TSendable>: Sized {
    /// The component as sent.
    fn to_sendable(&self) -> TSendable;

    /// The component a sent value stands for, if it stands for one of this kind.
    fn from_sendable(sendable: TSendable) -> Option<Self>;
}

} // verus!
