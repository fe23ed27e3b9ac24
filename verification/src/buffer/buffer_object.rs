//! The numbered copy of a component that an owner sends into a buffer.

use vstd::prelude::*;

verus! {

/// A component as sent, with the running network index of the tick it
/// belongs to.
#[derive(Debug, Clone)]
pub struct BufferObject<TComponent> {
    pub component: TComponent,
    pub index: u64,
}

impl<TComponent> BufferObject<TComponent> {
    /// The first copy of `component`, at index 0.
    pub fn new(component: TComponent) -> (object: Self)
        ensures
            object.component == component,
            object.index == 0,
    {
        BufferObject { component, index: 0 }
    }

    /// The copy for the next tick: the component's current value, one index on.
    pub fn advance(&mut self, component: TComponent)
        requires
            old(self).index < u64::MAX,
        ensures
            final(self).component == component,
            final(self).index == old(self).index + 1,
    {
        self.component = component;
        self.index = self.index + 1;
    }
}

} // verus!
