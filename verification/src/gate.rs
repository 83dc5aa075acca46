//! The admission gate: a counter of slots that bounds how many registrations
//! hash a credential at the same time.

use vstd::prelude::*;

verus! {

/// What the admission gate answers to one attempt to take a slot.
#[derive(Debug, Clone, Copy, PartialEq, Eq, Structural)]
pub enum Admission {
    /// A slot was free and is now held by the caller.
    Granted,
    /// Every slot is held; nothing was reserved.
    Full,
    /// The admission gate was shut; nothing was reserved.
    Closed,
}

/// A fixed number of slots, some of them held.
#[derive(Debug)]
pub struct AdmissionGate {
    capacity: usize,
    in_use: usize,
    closed: bool,
}

impl AdmissionGate {
    /// The number of slots, fixed when the admission gate is made.
    pub closed spec fn spec_capacity(&self) -> nat {
        self.capacity as nat
    }

    /// The number of slots that are held and not yet released.
    pub closed spec fn spec_in_use(&self) -> nat {
        self.in_use as nat
    }

    /// Whether the admission gate was shut.
    pub closed spec fn spec_closed(&self) -> bool {
        self.closed
    }

    /// The admission gate's invariant: no more slots are held than the
    /// admission gate has.
    pub open spec fn wf(&self) -> bool {
        self.spec_in_use() <= self.spec_capacity()
    }

    /// `self` is `before` with one more slot held.
    pub open spec fn took_slot(&self, before: &AdmissionGate) -> bool {
        &&& self.spec_capacity() == before.spec_capacity()
        &&& self.spec_closed() == before.spec_closed()
        &&& self.spec_in_use() == before.spec_in_use() + 1
    }

    /// `self` is `before` with one slot fewer held.
    pub open spec fn gave_slot(&self, before: &AdmissionGate) -> bool {
        &&& self.spec_capacity() == before.spec_capacity()
        &&& self.spec_closed() == before.spec_closed()
        &&& self.spec_in_use() + 1 == before.spec_in_use()
    }

    /// An open gate of `capacity` slots, all of them free.
    pub fn new(capacity: usize) -> (gate: AdmissionGate)
        ensures
            gate.wf(),
            gate.spec_capacity() == capacity,
            gate.spec_in_use() == 0,
            !gate.spec_closed(),
    {
        AdmissionGate { capacity, in_use: 0, closed: false }
    }

    pub fn capacity(&self) -> (n: usize)
        ensures
            n == self.spec_capacity(),
    {
        self.capacity
    }

    pub fn in_use(&self) -> (n: usize)
        ensures
            n == self.spec_in_use(),
    {
        self.in_use
    }

    pub fn is_closed(&self) -> (b: bool)
        ensures
            b == self.spec_closed(),
    {
        self.closed
    }

    /// The number of free slots.
    pub fn available(&self) -> (n: usize)
        requires
            self.wf(),
        ensures
            n == self.spec_capacity() - self.spec_in_use(),
    {
        self.capacity - self.in_use
    }

    /// Takes a slot if the admission gate is open and one is free. Nothing is
    /// reserved otherwise.
    pub fn try_acquire(&mut self) -> (answer: Admission)
        requires
            old(self).wf(),
        ensures
            final(self).wf(),
            old(self).spec_closed() ==> answer == Admission::Closed && *final(self) == *old(self),
            !old(self).spec_closed() && old(self).spec_in_use() < old(self).spec_capacity()
                ==> answer == Admission::Granted && final(self).took_slot(old(self)),
            !old(self).spec_closed() && old(self).spec_in_use() == old(self).spec_capacity()
                ==> answer == Admission::Full && *final(self) == *old(self),
    {
        if self.closed {
            Admission::Closed
        } else if self.in_use < self.capacity {
            self.in_use = self.in_use + 1;
            Admission::Granted
        } else {
            Admission::Full
        }
    }

    /// Gives back one held slot.
    pub fn release(&mut self)
        requires
            old(self).wf(),
            old(self).spec_in_use() > 0,
        ensures
            final(self).wf(),
            final(self).gave_slot(old(self)),
    {
        self.in_use = self.in_use - 1;
    }

    /// Shuts the admission gate: no slot is granted from now on. Held slots
    /// stay held until they are released.
    pub fn close(&mut self)
        ensures
            final(self).spec_closed(),
            final(self).spec_capacity() == old(self).spec_capacity(),
            final(self).spec_in_use() == old(self).spec_in_use(),
    {
        self.closed = true;
    }
}

} // verus!
