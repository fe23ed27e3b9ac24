//! A jitter buffer for a component that arrives over the network with a
//! running index: updates that arrive early wait in a fixed window until
//! their turn, and a full window resynchronises on the newest update.

use vstd::prelude::*;

verus! {

/// Holds the shown value of a received component and the updates that
/// arrived for the next `BUFFER_SIZE` network indices: slot `i` waits for
/// index `current_network_index + 1 + i`.
pub struct ComponentBuffer<TComponent, const BUFFER_SIZE: usize> {
    pub buffer: [Option<TComponent>; BUFFER_SIZE],
    pub current_network_index: u64,
    pub actual: TComponent,
}

/// The mathematical content of a [`ComponentBuffer`].
pub struct BufferView<T> {
    pub slots: Seq<Option<T>>,
    pub index: u64,
    pub actual: T,
}

/// What a call of [`ComponentBuffer::try_pop`] did, and what it leaves to
/// the caller when the next update is missing and the shown value should
/// move part of the way towards the first update that did arrive.
pub enum Popped<T> {
    /// No update waits; nothing changed.
    Nothing,
    /// The update for the next index was shown.
    Next,
    /// The next update is missing; `target` arrived for the index
    /// `distance` steps after the old one, and the caller moves the shown
    /// value a `1 / distance` part of the way towards it.
    Towards { target: T, distance: usize },
}

impl<T> BufferView<T> {
    /// The update that waits for network index `n`, if any.
    pub open spec fn pending(self, n: int) -> Option<T> {
        if self.index < n <= self.index + self.slots.len() {
            self.slots[n - self.index - 1]
        } else {
            None
        }
    }

    /// Whether any update waits.
    pub open spec fn has_pending(self) -> bool {
        exists|i: int| 0 <= i < self.slots.len() && self.slots[i] is Some
    }

    /// The window moved on by one index: every slot takes its right
    /// neighbour, and the last slot is empty.
    pub open spec fn shifted(self) -> Seq<Option<T>> {
        self.slots.subrange(1, self.slots.len() as int).push(None)
    }

    /// The buffer after an update for `network_index` with `component` arrived.
    pub open spec fn set(self, network_index: u64, component: T) -> Self {
        if network_index <= self.index {
            self
        } else if network_index - self.index - 1 < self.slots.len() {
            BufferView {
                slots: self.slots.update(network_index - self.index - 1, Some(component)),
                ..self
            }
        } else {
            BufferView {
                slots: Seq::new(self.slots.len(), |i: int| None),
                index: network_index,
                actual: component,
            }
        }
    }

    /// The buffer after one tick: the next update is shown if it arrived;
    /// if it is missing but a later one waits, the window still moves on and
    /// the shown value is left for the caller to move; else nothing changes.
    pub open spec fn pop(self) -> Self {
        if self.slots[0] is Some {
            BufferView { slots: self.shifted(), index: (self.index + 1) as u64, actual: self.slots[0]->0 }
        } else if self.has_pending() {
            BufferView { slots: self.shifted(), index: (self.index + 1) as u64, actual: self.actual }
        } else {
            self
        }
    }
}

impl<T, const BUFFER_SIZE: usize> View for ComponentBuffer<T, BUFFER_SIZE> {
    type V = BufferView<T>;

    open spec fn view(&self) -> BufferView<T> {
        BufferView { slots: self.buffer@, index: self.current_network_index, actual: self.actual }
    }
}

/// An empty slot, whatever its position.
fn vacant<T>(_position: usize) -> (slot: Option<T>)
    ensures
        slot is None,
{
    None
}

/// Calls `core::array::from_fn` with [`vacant`], which by its documentation
/// fills every position with what `vacant` gives for it: an empty slot.
#[verifier::external_body]
fn empty_slots<T, const N: usize>() -> (slots: [Option<T>; N])
    ensures
        forall|i: int| 0 <= i < N ==> slots@[i] is None,
{
    core::array::from_fn(vacant)
}

impl<TComponent: Clone, const BUFFER_SIZE: usize> ComponentBuffer<TComponent, BUFFER_SIZE> {
    /// A buffer for a component first received at `network_index`: it shows
    /// `component`, and a copy of it waits in the first slot.
    pub fn from_received(component: TComponent, network_index: u64) -> (created: Self)
        requires
            BUFFER_SIZE > 0,
        ensures
            created.actual == component,
            created.current_network_index == network_index,
            created.buffer@[0] is Some,
            cloned(component, created.buffer@[0]->0),
            forall|i: int| 1 <= i < BUFFER_SIZE ==> created.buffer@[i] is None,
    {
        let mut buffer: [Option<TComponent>; BUFFER_SIZE] = empty_slots();
        buffer[0] = Some(component.clone());
        ComponentBuffer { buffer, current_network_index: network_index, actual: component }
    }

    /// Moves on by one network index; see [`BufferView::pop`]. When the next
    /// update is missing, the returned [`Popped::Towards`] names the first
    /// update that waits, for the caller to move the shown value towards it.
    pub fn try_pop(&mut self) -> (popped: Popped<TComponent>)
        requires
            BUFFER_SIZE > 0,
            old(self)@.has_pending() ==> old(self).current_network_index < u64::MAX,
        ensures
            final(self)@ == old(self)@.pop(),
            match popped {
                Popped::Nothing => !old(self)@.has_pending(),
                Popped::Next => old(self).buffer@[0] is Some,
                Popped::Towards { target, distance } => {
                    &&& old(self).buffer@[0] is None
                    &&& 2 <= distance <= BUFFER_SIZE
                    &&& old(self).buffer@[distance - 1] is Some
                    &&& cloned(old(self).buffer@[distance - 1]->0, target)
                    &&& forall|j: int| 0 <= j < distance - 1 ==> old(self).buffer@[j] is None
                },
            },
    {
        let ghost before = self@;
        let popped = if let Some(next) = self.buffer[0].take() {
            self.actual = next;
            Popped::Next
        } else {
            assert(self.buffer@ =~= before.slots);
            match self.get_first_future() {
                None => {
                    return Popped::Nothing;
                },
                Some((latest, latest_index)) => Popped::Towards {
                    target: latest,
                    distance: latest_index + 1,
                },
            }
        };
        self.current_network_index = self.current_network_index + 1;
        self.shift_left();
        proof {
            assert(self.buffer@ =~= before.shifted());
        }
        popped
    }

    /// Takes in an update for `network_index`; see [`BufferView::set`].
    pub fn set_component(&mut self, network_index: u64, component: TComponent)
        ensures
            final(self)@ == old(self)@.set(network_index, component),
    {
        if network_index <= self.current_network_index {
            return;
        }
        let distance = network_index - self.current_network_index - 1;
        if distance < BUFFER_SIZE as u64 {
            let array_index = distance as usize;
            self.buffer[array_index] = Some(component);
            return;
        }
        self.resync(network_index, component);
    }

    /// The first waiting update, cloned, and its slot.
    fn get_first_future(&self) -> (first: Option<(TComponent, usize)>)
        ensures
            match first {
                None => !self@.has_pending(),
                Some((component, index)) => {
                    &&& index < BUFFER_SIZE
                    &&& self.buffer@[index as int] is Some
                    &&& cloned(self.buffer@[index as int]->0, component)
                    &&& forall|j: int| 0 <= j < index ==> self.buffer@[j] is None
                },
            },
    {
        let mut index: usize = 0;
        while index < BUFFER_SIZE
            invariant
                index <= BUFFER_SIZE,
                forall|j: int| 0 <= j < index ==> self.buffer@[j] is None,
            decreases BUFFER_SIZE - index,
        {
            if let Some(component) = &self.buffer[index] {
                return Some((component.clone(), index));
            }
            index = index + 1;
        }
        None
    }

    /// Moves every slot one place to the left and empties the last one.
    fn shift_left(&mut self)
        ensures
            BUFFER_SIZE > 0 ==> final(self).buffer@ =~= old(self)@.shifted(),
            BUFFER_SIZE == 0 ==> final(self).buffer@ == old(self).buffer@,
            final(self).actual == old(self).actual,
            final(self).current_network_index == old(self).current_network_index,
    {
        if BUFFER_SIZE == 0 {
            return;
        }
        let ghost start = self.buffer@;
        let mut i: usize = 0;
        while i < BUFFER_SIZE - 1
            invariant
                BUFFER_SIZE > 0,
                i <= BUFFER_SIZE - 1,
                self.buffer@.len() == BUFFER_SIZE,
                start.len() == BUFFER_SIZE,
                forall|j: int| 0 <= j < i ==> self.buffer@[j] == start[j + 1],
                forall|j: int| i < j < BUFFER_SIZE ==> self.buffer@[j] == start[j],
                i > 0 ==> self.buffer@[i as int] is None,
                i == 0 ==> self.buffer@[0] == start[0],
                self.actual == old(self).actual,
                self.current_network_index == old(self).current_network_index,
            decreases BUFFER_SIZE - 1 - i,
        {
            self.buffer[i] = self.buffer[i + 1].take();
            i = i + 1;
        }
        self.buffer[BUFFER_SIZE - 1] = None;
    }

    /// Drops every waiting update and shows `component` as of `network_index`.
    fn resync(&mut self, network_index: u64, component: TComponent)
        ensures
            final(self).buffer@ =~= Seq::new(BUFFER_SIZE as nat, |i: int| None::<TComponent>),
            final(self).actual == component,
            final(self).current_network_index == network_index,
    {
        let mut i: usize = 0;
        while i < BUFFER_SIZE
            invariant
                i <= BUFFER_SIZE,
                self.buffer@.len() == BUFFER_SIZE,
                forall|j: int| 0 <= j < i ==> self.buffer@[j] is None,
            decreases BUFFER_SIZE - i,
        {
            self.buffer[i] = None;
            i = i + 1;
        }
        self.actual = component;
        self.current_network_index = network_index;
    }
}

} // verus!

verus! {

/// A tick keeps every waiting update waiting for the same network index:
/// the window moves, the updates do not.
pub proof fn lemma_pop_keeps_pending<T>(v: BufferView<T>, n: int)
    requires
        v.slots.len() > 0,
        v.has_pending() ==> v.index < u64::MAX,
        n > v.pop().index,
    ensures
        v.pop().pending(n) == v.pending(n),
{
    let p = v.pop();
    if v.slots[0] is Some || v.has_pending() {
        assert(p.slots.len() == v.slots.len());
        if p.index < n <= p.index + p.slots.len() {
            let k = n - p.index - 1;
            if k < v.slots.len() - 1 {
                assert(p.slots[k] == v.slots[k + 1]);
            } else {
                assert(p.slots[k] is None);
            }
        }
    }
}

/// An update that arrives inside the window waits for its own index and
/// leaves every other waiting update alone.
pub proof fn lemma_set_in_window<T>(v: BufferView<T>, network_index: u64, component: T, n: int)
    requires
        v.index < network_index <= v.index + v.slots.len(),
    ensures
        v.set(network_index, component).pending(network_index as int) == Some(component),
        n != network_index ==> v.set(network_index, component).pending(n) == v.pending(n),
        v.set(network_index, component).index == v.index,
        v.set(network_index, component).actual == v.actual,
{
}

/// An update from beyond the window is shown at once, and nothing waits.
pub proof fn lemma_set_beyond_window<T>(v: BufferView<T>, network_index: u64, component: T)
    requires
        network_index > v.index + v.slots.len(),
    ensures
        v.set(network_index, component).actual == component,
        v.set(network_index, component).index == network_index,
        !v.set(network_index, component).has_pending(),
{
}

/// An update that is no newer than the shown one changes nothing.
pub proof fn lemma_set_stale<T>(v: BufferView<T>, network_index: u64, component: T)
    requires
        network_index <= v.index,
    ensures
        v.set(network_index, component) == v,
{
}

/// The update for the next index is the one shown after the next tick.
pub proof fn lemma_next_update_is_shown<T>(v: BufferView<T>, component: T)
    requires
        v.slots.len() > 0,
        v.index < u64::MAX,
    ensures
        v.set((v.index + 1) as u64, component).pop().actual == component,
        v.set((v.index + 1) as u64, component).pop().index == v.index + 1,
{
    let s = v.set((v.index + 1) as u64, component);
    assert(s.slots[0] == Some(component));
}

} // verus!
