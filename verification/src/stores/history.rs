//! What stays true of a store over its whole life.
//!
//! A store is seen as the sequence of its slots. The three ways to change a
//! store are modelled as [`Operation`]s on such a sequence, and the laws below
//! hold of every sequence of operations.

use vstd::prelude::*;
use super::handle::ObjectId;

verus! {

/// One change to a store.
pub enum Operation<T> {
    /// Store an object in a new slot.
    Insert(T),
    /// Allocate a new slot without an object.
    Reserve,
    /// Write an object into the reserved slot with the given id.
    Complete(ObjectId, T),
}

/// Whether `id` designates a slot of `slots` that holds an object.
pub open spec fn holds<T>(slots: Seq<Option<T>>, id: ObjectId) -> bool {
    id.index() < slots.len() && slots[id.index()] is Some
}

/// Whether `id` designates a slot of `slots` that is reserved and not yet
/// completed.
pub open spec fn pending<T>(slots: Seq<Option<T>>, id: ObjectId) -> bool {
    id.index() < slots.len() && slots[id.index()] is None
}

/// Whether `later` holds everything that `earlier` held: no slot is gone, and
/// every slot that held an object still holds the same object.
pub open spec fn preserves<T>(earlier: Seq<Option<T>>, later: Seq<Option<T>>) -> bool {
    &&& earlier.len() <= later.len()
    &&& forall|i: int| 0 <= i < earlier.len() && earlier[i] is Some ==> later[i] == earlier[i]
}

/// The slots after one operation.
///
/// Completing a slot that is not pending is rejected: it changes nothing.
pub open spec fn apply<T>(slots: Seq<Option<T>>, operation: Operation<T>) -> Seq<Option<T>> {
    match operation {
        Operation::Insert(object) => slots.push(Some(object)),
        Operation::Reserve => slots.push(None),
        Operation::Complete(id, object) => if pending(slots, id) {
            slots.update(id.index(), Some(object))
        } else {
            slots
        },
    }
}

/// The slots after a sequence of operations, carried out first to last.
pub open spec fn apply_all<T>(slots: Seq<Option<T>>, operations: Seq<Operation<T>>) -> Seq<
    Option<T>,
>
    decreases operations.len(),
{
    if operations.len() == 0 {
        slots
    } else {
        apply(apply_all(slots, operations.drop_last()), operations.last())
    }
}

/// No operation removes a slot or changes an object.
pub proof fn lemma_operation_preserves<T>(slots: Seq<Option<T>>, operation: Operation<T>)
    ensures
        preserves(slots, apply(slots, operation)),
{
}

/// What was preserved twice in a row was preserved throughout.
pub proof fn lemma_preserves_transitive<T>(
    first: Seq<Option<T>>,
    second: Seq<Option<T>>,
    third: Seq<Option<T>>,
)
    requires
        preserves(first, second),
        preserves(second, third),
    ensures
        preserves(first, third),
{
}

/// Handle stability: whatever operations follow, a slot that held an object
/// after the first `i` operations holds the same object after the first `j`,
/// for every `j` from `i` on.
pub proof fn lemma_handle_stability<T>(
    start: Seq<Option<T>>,
    operations: Seq<Operation<T>>,
    i: int,
    j: int,
)
    requires
        0 <= i <= j <= operations.len(),
    ensures
        preserves(apply_all(start, operations.take(i)), apply_all(start, operations.take(j))),
    decreases j - i,
{
    if i < j {
        lemma_handle_stability(start, operations, i, j - 1);
        assert(operations.take(j).drop_last() =~= operations.take(j - 1));
        lemma_operation_preserves(apply_all(start, operations.take(j - 1)), operations[j - 1]);
    }
}

/// Handle stability, for one handle: an object that a store holds stays in its
/// slot, unchanged, whatever operations follow.
pub proof fn lemma_object_stays<T>(
    slots: Seq<Option<T>>,
    operations: Seq<Operation<T>>,
    id: ObjectId,
)
    requires
        holds(slots, id),
    ensures
        holds(apply_all(slots, operations), id),
        apply_all(slots, operations)[id.index()] == slots[id.index()],
{
    lemma_handle_stability(slots, operations, 0, operations.len() as int);
    assert(operations.take(operations.len() as int) =~= operations);
}

/// Reservation completion: completing a pending slot puts exactly the given
/// object there and touches no other slot, and the slot is then no longer
/// pending, so that a second completion of it is rejected.
pub proof fn lemma_reservation_completion<T>(
    slots: Seq<Option<T>>,
    id: ObjectId,
    object: T,
    again: T,
)
    requires
        pending(slots, id),
    ensures
        apply(slots, Operation::Complete(id, object))[id.index()] == Some(object),
        apply(slots, Operation::Complete(id, object)).len() == slots.len(),
        forall|i: int|
            0 <= i < slots.len() && i != id.index() ==> apply(
                slots,
                Operation::Complete(id, object),
            )[i] == slots[i],
        !pending(apply(slots, Operation::Complete(id, object)), id),
        apply(apply(slots, Operation::Complete(id, object)), Operation::Complete(id, again))
            == apply(slots, Operation::Complete(id, object)),
{
}

} // verus!
