//! Identities of stored objects.

use core::marker::PhantomData;
use std::cmp::Ordering;
use vstd::prelude::*;
use vstd::std_specs::cmp::{PartialEqSpecImpl, PartialOrdSpecImpl};

verus! {

/// The identity of an object within one store.
///
/// A store hands out ids in insertion order, starting at zero, so an id is
/// also the position of its slot in the store.
#[derive(Clone, Copy, Debug, PartialEq, Eq, PartialOrd, Ord, Hash, Structural)]
pub struct ObjectId(pub u64);

impl ObjectId {
    /// The position of the slot that this id designates.
    pub open spec fn index(self) -> int {
        self.0 as int
    }
}

/// A shared, non-owning reference to an object in a store.
///
/// A handle is nothing but the identity of a slot. Two handles of one store
/// are equal if and only if they designate the same slot; the objects behind
/// them are never compared. A handle does not know its store: it is to be
/// looked up in the store that it came from.
#[derive(Debug, Eq, Ord, Hash)]
pub struct Handle<T> {
    id: ObjectId,
    marker: PhantomData<T>,
}

impl<T> View for Handle<T> {
    type V = ObjectId;

    closed spec fn view(&self) -> ObjectId {
        self.id
    }
}

impl<T> Handle<T> {
    pub(crate) fn new(id: ObjectId) -> (handle: Self)
        ensures
            handle@ == id,
    {
        Handle { id, marker: PhantomData }
    }

    /// The identity of the slot that this handle designates.
    pub fn id(&self) -> (id: ObjectId)
        ensures
            id == self@,
    {
        self.id
    }
}

impl<T> Clone for Handle<T> {
    fn clone(&self) -> (copy: Self)
        ensures
            copy@ == self@,
    {
        Handle { id: self.id, marker: PhantomData }
    }
}

impl<T> Copy for Handle<T> {

}

impl<T> PartialEq for Handle<T> {
    fn eq(&self, other: &Self) -> (equal: bool) {
        self.id.0 == other.id.0
    }
}

impl<T> PartialEqSpecImpl for Handle<T> {
    open spec fn obeys_eq_spec() -> bool {
        true
    }

    open spec fn eq_spec(&self, other: &Self) -> bool {
        self@ == other@
    }
}

impl<T> PartialOrd for Handle<T> {
    fn partial_cmp(&self, other: &Self) -> (order: Option<Ordering>) {
        if self.id.0 < other.id.0 {
            Some(Ordering::Less)
        } else if self.id.0 == other.id.0 {
            Some(Ordering::Equal)
        } else {
            Some(Ordering::Greater)
        }
    }
}

impl<T> PartialOrdSpecImpl for Handle<T> {
    open spec fn obeys_partial_cmp_spec() -> bool {
        true
    }

    open spec fn partial_cmp_spec(&self, other: &Self) -> Option<Ordering> {
        if self@.0 < other@.0 {
            Some(Ordering::Less)
        } else if self@.0 == other@.0 {
            Some(Ordering::Equal)
        } else {
            Some(Ordering::Greater)
        }
    }
}

/// A slot that has been allocated but whose object is not yet known.
///
/// A reservation is not cloneable and is consumed when it is completed, so it
/// can be completed at most once.
#[derive(Debug)]
pub struct Reservation<T> {
    id: ObjectId,
    marker: PhantomData<T>,
}

impl<T> View for Reservation<T> {
    type V = ObjectId;

    closed spec fn view(&self) -> ObjectId {
        self.id
    }
}

impl<T> Reservation<T> {
    pub(crate) fn new(id: ObjectId) -> (reservation: Self)
        ensures
            reservation@ == id,
    {
        Reservation { id, marker: PhantomData }
    }

    /// The identity of the reserved slot.
    pub fn id(&self) -> (id: ObjectId)
        ensures
            id == self@,
    {
        self.id
    }

    /// The handle of the reserved slot.
    ///
    /// The handle can be stored in other objects right away. It must not be
    /// looked up before the reservation has been completed.
    pub fn handle(&self) -> (handle: Handle<T>)
        ensures
            handle@ == self@,
    {
        Handle::new(self.id)
    }
}

} // verus!
