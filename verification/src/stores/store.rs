//! The store itself.

use core::marker::PhantomData;
use vstd::arithmetic::div_mod::{lemma_fundamental_div_mod, lemma_fundamental_div_mod_converse};
use vstd::arithmetic::mul::lemma_mul_inequality;
use vstd::prelude::*;
use super::handle::{Handle, ObjectId, Reservation};
use super::history::{apply, preserves, Operation};

verus! {

/// The number of slots in a block of a store made by [`Store::new`].
pub const DEFAULT_BLOCK_SIZE: usize = 16384;

/// An append-only collection of objects.
///
/// The store is seen as the sequence of its slots, in the order in which they
/// were allocated. A slot holds `Some` object, or `None` while it is reserved
/// and not yet completed. Slots are never removed, and a slot that holds an
/// object is never written again.
///
/// The slots are kept in blocks of a fixed size. Blocks are only ever added,
/// and room for a whole block is asked for when the block is made, so a slot,
/// once allocated, stays in its block at its offset.
#[derive(Debug)]
pub struct Store<T> {
    blocks: Vec<Vec<Option<T>>>,
    block_size: usize,
}

/// Asks for room for `capacity` more slots in `block`, by
/// `Vec::try_reserve_exact` of std, so that filling the block up to its size
/// moves no slot.
///
/// Not proved, but taken from the documentation of std: the call does not
/// panic, and the content of the vector stays as it is, whether or not the
/// room could be had.
#[verifier::external_body]
fn reserve_room<T>(block: &mut Vec<Option<T>>, capacity: usize)
    ensures
        final(block)@ == old(block)@,
{
    let _ = block.try_reserve_exact(capacity);
}

/// A completion that a store did not accept.
#[derive(Debug)]
pub struct Rejected<T> {
    /// The reservation that was to be completed.
    pub reservation: Reservation<T>,
    /// The object that was to be stored.
    pub object: T,
}

/// Where slot `index` lies: every block but the last is full, the last holds
/// `last` slots.
proof fn lemma_slot_position(index: int, block_size: int, blocks: int, last: int)
    requires
        0 < block_size,
        0 < blocks,
        0 <= last <= block_size,
        0 <= index < (blocks - 1) * block_size + last,
    ensures
        0 <= index / block_size < blocks,
        0 <= index % block_size < block_size,
        index / block_size == blocks - 1 ==> index % block_size < last,
{
    let b = index / block_size;
    let o = index % block_size;
    lemma_fundamental_div_mod(index, block_size);
    assert(0 <= b) by (nonlinear_arith)
        requires
            index == block_size * b + o,
            0 <= index,
            0 <= o < block_size,
            0 < block_size,
    ;
    if b >= blocks {
        lemma_mul_inequality(blocks, b, block_size);
        assert((blocks - 1) * block_size + block_size == blocks * block_size)
            by (nonlinear_arith);
    }
    if b == blocks - 1 {
        assert(block_size * b == (blocks - 1) * block_size) by (nonlinear_arith)
            requires
                b == blocks - 1,
        ;
    }
}

impl<T> Store<T> {
    /// Whether the blocks are laid out as the store keeps them: every block
    /// but the last is full, and the slots can be counted in a `usize`.
    ///
    /// Every store made and changed through the functions of this type is
    /// well formed.
    pub closed spec fn wf(&self) -> bool {
        &&& self.block_size > 0
        &&& forall|b: int|
            0 <= b < self.blocks.len() - 1 ==> (#[trigger] self.blocks[b]).len() == self.block_size
        &&& self.blocks.len() > 0 ==> self.blocks[self.blocks.len() - 1].len() <= self.block_size
        &&& self.slot_count() <= usize::MAX
    }

    spec fn slot_count(&self) -> int {
        if self.blocks.len() == 0 {
            0
        } else {
            (self.blocks.len() - 1) * self.block_size + self.blocks[self.blocks.len() - 1].len()
        }
    }

    /// The number of slots in each full block.
    pub closed spec fn block_size(&self) -> nat {
        self.block_size as nat
    }

    /// Whether `id` designates a slot of this store that holds an object.
    pub open spec fn contains(&self, id: ObjectId) -> bool {
        id.index() < self@.len() && self@[id.index()] is Some
    }

    /// Whether `id` designates a slot of this store that is reserved and not
    /// yet completed.
    pub open spec fn is_pending(&self, id: ObjectId) -> bool {
        id.index() < self@.len() && self@[id.index()] is None
    }

    /// The object in the slot that `id` designates.
    pub open spec fn object(&self, id: ObjectId) -> T
        recommends
            self.contains(id),
    {
        self@[id.index()]->0
    }

    /// Whether this store holds everything that `earlier` held: each slot of
    /// `earlier` is still there, and each object of `earlier` is unchanged.
    pub open spec fn extends(&self, earlier: &Self) -> bool {
        preserves(earlier@, self@)
    }

    /// Makes an empty store with blocks of [`DEFAULT_BLOCK_SIZE`] slots.
    pub fn new() -> (store: Self)
        ensures
            store.wf(),
            store@ == Seq::<Option<T>>::empty(),
            store.block_size() == DEFAULT_BLOCK_SIZE,
    {
        Self::with_block_size(DEFAULT_BLOCK_SIZE)
    }

    /// Makes an empty store with blocks of `block_size` slots.
    pub fn with_block_size(block_size: usize) -> (store: Self)
        requires
            block_size > 0,
        ensures
            store.wf(),
            store@ == Seq::<Option<T>>::empty(),
            store.block_size() == block_size,
    {
        let store = Store { blocks: Vec::new(), block_size };
        store
    }

    /// The number of slots, reserved ones included.
    pub fn len(&self) -> (len: usize)
        requires
            self.wf(),
        ensures
            len == self@.len(),
    {
        let blocks = self.blocks.len();
        if blocks == 0 {
            0
        } else {
            (blocks - 1) * self.block_size + self.blocks[blocks - 1].len()
        }
    }

    /// Whether no slot has been allocated yet.
    pub fn is_empty(&self) -> (empty: bool)
        requires
            self.wf(),
        ensures
            empty == (self@.len() == 0),
    {
        self.len() == 0
    }

    /// Appends a slot and returns its position.
    fn push_slot(&mut self, slot: Option<T>) -> (index: usize)
        requires
            old(self).wf(),
            old(self)@.len() < usize::MAX,
        ensures
            final(self).wf(),
            index == old(self)@.len(),
            final(self)@ == old(self)@.push(slot),
            final(self).block_size() == old(self).block_size(),
    {
        let ghost before = self@;
        let ghost old_blocks = self.blocks@;
        let block_size = self.block_size;
        let blocks = self.blocks.len();
        if blocks == 0 || self.blocks[blocks - 1].len() == block_size {
            let mut block = Vec::new();
            reserve_room(&mut block, block_size);
            self.blocks.push(block);
            assert(self.slot_count() == before.len()) by (nonlinear_arith)
                requires
                    self.blocks.len() == blocks + 1,
                    self.blocks[blocks as int].len() == 0,
                    self.block_size == block_size,
                    self.slot_count() == blocks * block_size + 0,
                    before.len() == (if blocks == 0 {
                        0
                    } else {
                        (blocks - 1) * block_size + block_size
                    }),
            ;
        }
        let last = self.blocks.len() - 1;
        let offset = self.blocks[last].len();
        self.blocks[last].push(slot);
        proof {
            let bs = block_size as int;
            let count = before.len() as int;
            lemma_fundamental_div_mod_converse(count, bs, last as int, offset as int);
            assert forall|i: int| 0 <= i < count implies self@[i] == before[i] by {
                if old_blocks.len() > 0 {
                    lemma_slot_position(
                        i,
                        bs,
                        old_blocks.len() as int,
                        old_blocks[old_blocks.len() - 1].len() as int,
                    );
                }
                lemma_slot_position(i, bs, last + 1, offset as int);
            }
            assert(self@ =~= before.push(slot));
        }
        last * block_size + offset
    }

    /// Stores `value` in a new slot and returns the handle of that slot.
    pub fn insert(&mut self, value: T) -> (handle: Handle<T>)
        requires
            old(self).wf(),
            old(self)@.len() < usize::MAX,
        ensures
            final(self).wf(),
            handle@.index() == old(self)@.len(),
            final(self)@ == old(self)@.push(Some(value)),
            final(self)@ == apply(old(self)@, Operation::Insert(value)),
            final(self).block_size() == old(self).block_size(),
            final(self).contains(handle@),
            final(self).object(handle@) == value,
            final(self).extends(old(self)),
    {
        let index = self.push_slot(Some(value));
        Handle::new(ObjectId(index as u64))
    }

    /// Allocates a slot without an object.
    ///
    /// The reservation's handle may be handed out at once, so that objects
    /// that refer to each other can be built in any order. It must not be
    /// looked up before the reservation has been completed.
    pub fn reserve(&mut self) -> (reservation: Reservation<T>)
        requires
            old(self).wf(),
            old(self)@.len() < usize::MAX,
        ensures
            final(self).wf(),
            reservation@.index() == old(self)@.len(),
            final(self)@ == old(self)@.push(None),
            final(self)@ == apply(old(self)@, Operation::Reserve),
            final(self).block_size() == old(self).block_size(),
            final(self).is_pending(reservation@),
            final(self).extends(old(self)),
    {
        let index = self.push_slot(None);
        Reservation::new(ObjectId(index as u64))
    }

    /// Writes `value` into the reserved slot and returns the slot's handle.
    ///
    /// The slot must still be pending: a slot is completed exactly once.
    pub fn complete(&mut self, reservation: Reservation<T>, value: T) -> (handle: Handle<T>)
        requires
            old(self).wf(),
            old(self).is_pending(reservation@),
        ensures
            final(self).wf(),
            handle@ == reservation@,
            final(self)@ == old(self)@.update(reservation@.index(), Some(value)),
            final(self)@ == apply(old(self)@, Operation::Complete(reservation@, value)),
            final(self).block_size() == old(self).block_size(),
            final(self).contains(handle@),
            final(self).object(handle@) == value,
            final(self).extends(old(self)),
    {
        let ghost before = self@;
        let ghost old_blocks = self.blocks@;
        let id = reservation.id();
        let index = id.0 as usize;
        let block = index / self.block_size;
        let offset = index % self.block_size;
        proof {
            lemma_slot_position(
                index as int,
                self.block_size as int,
                old_blocks.len() as int,
                old_blocks[old_blocks.len() - 1].len() as int,
            );
        }
        self.blocks[block][offset] = Some(value);
        proof {
            let bs = self.block_size as int;
            assert forall|i: int| 0 <= i < before.len() implies self@[i] == before.update(
                index as int,
                Some(value),
            )[i] by {
                lemma_slot_position(
                    i,
                    bs,
                    old_blocks.len() as int,
                    old_blocks[old_blocks.len() - 1].len() as int,
                );
                lemma_fundamental_div_mod(i, bs);
                lemma_fundamental_div_mod(index as int, bs);
            }
            assert(self@ =~= before.update(index as int, Some(value)));
        }
        Handle::new(id)
    }

    /// Whether the reserved slot is a slot of this store that still waits for
    /// its object.
    pub fn awaits(&self, reservation: &Reservation<T>) -> (pending: bool)
        requires
            self.wf(),
        ensures
            pending == self.is_pending(reservation@),
    {
        if reservation.id().0 >= self.len() as u64 {
            return false;
        }
        proof {
            lemma_slot_position(
                reservation@.index(),
                self.block_size as int,
                self.blocks.len() as int,
                self.blocks[self.blocks.len() - 1].len() as int,
            );
        }
        let index = reservation.id().0 as usize;
        let block = index / self.block_size;
        let offset = index % self.block_size;
        self.blocks[block][offset].is_none()
    }

    /// Writes `value` into the reserved slot, if the slot still waits for its
    /// object, and returns the slot's handle.
    ///
    /// A reservation whose slot this store lacks, or whose slot holds an
    /// object already, is rejected: the store stays as it is, and the
    /// reservation and the object are handed back.
    pub fn try_complete(&mut self, reservation: Reservation<T>, value: T) -> (outcome: Result<
        Handle<T>,
        Rejected<T>,
    >)
        requires
            old(self).wf(),
        ensures
            final(self).wf(),
            final(self)@ == apply(old(self)@, Operation::Complete(reservation@, value)),
            final(self).block_size() == old(self).block_size(),
            final(self).extends(old(self)),
            outcome is Ok <==> old(self).is_pending(reservation@),
            outcome matches Ok(handle) ==> handle@ == reservation@,
            outcome matches Err(rejected) ==> rejected.reservation == reservation
                && rejected.object == value,
    {
        if self.awaits(&reservation) {
            Ok(self.complete(reservation, value))
        } else {
            Err(Rejected { reservation, object: value })
        }
    }

    /// The object that `handle` designates.
    ///
    /// The handle must designate a slot of this store that holds an object: a
    /// handle from [`Store::insert`] does, and so does a reservation's handle
    /// once the reservation has been completed.
    pub fn get(&self, handle: &Handle<T>) -> (object: &T)
        requires
            self.wf(),
            self.contains(handle@),
        ensures
            *object == self.object(handle@),
    {
        proof {
            lemma_slot_position(
                handle@.index(),
                self.block_size as int,
                self.blocks.len() as int,
                self.blocks[self.blocks.len() - 1].len() as int,
            );
        }
        let index = handle.id().0 as usize;
        let block = index / self.block_size;
        let offset = index % self.block_size;
        self.blocks[block][offset].as_ref().unwrap()
    }

    /// The object that `handle` designates, if it designates a slot of this
    /// store that holds one.
    pub fn try_get(&self, handle: &Handle<T>) -> (object: Option<&T>)
        requires
            self.wf(),
        ensures
            object is Some <==> self.contains(handle@),
            object matches Some(found) ==> *found == self.object(handle@),
    {
        if handle.id().0 >= self.len() as u64 {
            return None;
        }
        proof {
            lemma_slot_position(
                handle@.index(),
                self.block_size as int,
                self.blocks.len() as int,
                self.blocks[self.blocks.len() - 1].len() as int,
            );
        }
        let index = handle.id().0 as usize;
        let block = index / self.block_size;
        let offset = index % self.block_size;
        self.blocks[block][offset].as_ref()
    }

    /// The handles of all slots allocated so far, in insertion order.
    ///
    /// The iterator is a snapshot: slots allocated later are not visited.
    pub fn iter(&self) -> (iter: Iter<T>)
        requires
            self.wf(),
        ensures
            iter@ == Seq::new(self@.len(), |i: int| ObjectId(i as u64)),
    {
        let iter = Iter { next: 0, end: self.len() as u64, marker: PhantomData };
        iter
    }
}

impl<T> View for Store<T> {
    type V = Seq<Option<T>>;

    closed spec fn view(&self) -> Seq<Option<T>> {
        Seq::new(
            self.slot_count() as nat,
            |i: int| self.blocks[i / (self.block_size as int)][i % (self.block_size as int)],
        )
    }
}

impl<T> Default for Store<T> {
    fn default() -> (store: Self)
        ensures
            store.wf(),
            store@ == Seq::<Option<T>>::empty(),
            store.block_size() == DEFAULT_BLOCK_SIZE,
    {
        Store::new()
    }
}

/// The handles of the slots of a store, in insertion order.
///
/// The iterator is seen as the sequence of ids that it has yet to hand out.
#[derive(Debug)]
pub struct Iter<T> {
    next: u64,
    end: u64,
    marker: PhantomData<T>,
}

impl<T> View for Iter<T> {
    type V = Seq<ObjectId>;

    closed spec fn view(&self) -> Seq<ObjectId> {
        if self.next <= self.end {
            Seq::new((self.end - self.next) as nat, |i: int| ObjectId((self.next + i) as u64))
        } else {
            Seq::empty()
        }
    }
}

impl<T> Iter<T> {
    /// Hands out the next handle, if any is left.
    pub fn next(&mut self) -> (item: Option<Handle<T>>)
        ensures
            old(self)@.len() == 0 ==> item is None && final(self)@ == old(self)@,
            old(self)@.len() > 0 ==> item is Some && item->0@ == old(self)@[0] && final(self)@
                == old(self)@.skip(1),
    {
        if self.next < self.end {
            let id = ObjectId(self.next);
            self.next = self.next + 1;
            Some(Handle::new(id))
        } else {
            None
        }
    }

    /// The number of handles left.
    pub fn remaining(&self) -> (count: u64)
        ensures
            count == self@.len(),
    {
        if self.next <= self.end {
            self.end - self.next
        } else {
            0
        }
    }
}

} // verus!
