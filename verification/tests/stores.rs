use std::collections::HashSet;

use fj_kernel::stores::store::DEFAULT_BLOCK_SIZE;
use fj_kernel::stores::{Handle, ObjectId, Store, Stores};

#[test]
fn empty_store_has_no_slots() {
    let store: Store<u32> = Store::new();
    assert_eq!(store.len(), 0);
    assert!(store.is_empty());
    let mut iter = store.iter();
    assert_eq!(iter.remaining(), 0);
    assert!(iter.next().is_none());
}

#[test]
fn insert_assigns_ids_in_insertion_order() {
    let mut store = Store::new();
    let a = store.insert('a');
    let b = store.insert('b');
    let c = store.insert('c');
    assert_eq!(a.id(), ObjectId(0));
    assert_eq!(b.id(), ObjectId(1));
    assert_eq!(c.id(), ObjectId(2));
    assert_eq!(store.len(), 3);
    assert!(!store.is_empty());
}

#[test]
fn get_returns_the_inserted_object() {
    let mut store = Store::new();
    let a = store.insert(String::from("first"));
    let b = store.insert(String::from("second"));
    assert_eq!(store.get(&a), "first");
    assert_eq!(store.get(&b), "second");
    assert_eq!(store.try_get(&a), Some(&String::from("first")));
}

#[test]
fn objects_are_found_across_block_boundaries() {
    let mut store = Store::with_block_size(2);
    let mut handles = Vec::new();
    for value in 0..7u32 {
        handles.push(store.insert(value * 10));
    }
    assert_eq!(store.len(), 7);
    for (index, handle) in handles.iter().enumerate() {
        assert_eq!(handle.id(), ObjectId(index as u64));
        assert_eq!(*store.get(handle), index as u32 * 10);
    }
}

#[test]
fn a_block_of_one_slot_works() {
    let mut store = Store::with_block_size(1);
    let a = store.insert(1u8);
    let b = store.insert(2u8);
    let c = store.insert(3u8);
    assert_eq!((*store.get(&a), *store.get(&b), *store.get(&c)), (1, 2, 3));
}

#[test]
fn a_block_may_be_larger_than_memory() {
    let mut store = Store::with_block_size(usize::MAX);
    let a = store.insert(1u8);
    let b = store.insert(2u8);
    assert_eq!((*store.get(&a), *store.get(&b)), (1, 2));
    assert_eq!(store.len(), 2);
}

#[test]
fn default_blocks_hold_16384_slots() {
    assert_eq!(DEFAULT_BLOCK_SIZE, 16384);
    let mut store = Store::new();
    let mut last = None;
    for value in 0..(DEFAULT_BLOCK_SIZE as u64 + 1) {
        last = Some(store.insert(value));
    }
    let last = last.unwrap();
    assert_eq!(last.id(), ObjectId(16384));
    assert_eq!(*store.get(&last), 16384);
    assert_eq!(store.len(), 16385);
}

#[test]
fn completing_a_reservation_stores_exactly_the_given_object() {
    let mut store = Store::with_block_size(4);
    store.insert(1u32);
    let reservation = store.reserve();
    let ahead = reservation.handle();
    assert_eq!(reservation.id(), ObjectId(1));
    assert_eq!(ahead.id(), ObjectId(1));
    store.insert(3u32);

    let handle = store.complete(reservation, 2u32);
    assert_eq!(handle, ahead);
    assert_eq!(*store.get(&handle), 2);
    assert_eq!(*store.get(&ahead), 2);
    assert_eq!(store.len(), 3);
}

#[test]
fn a_reserved_slot_holds_nothing_until_completed() {
    let mut store = Store::new();
    let reservation = store.reserve();
    let handle = reservation.handle();
    assert_eq!(store.len(), 1);
    assert_eq!(store.try_get(&handle), None);
    store.complete(reservation, 'x');
    assert_eq!(store.try_get(&handle), Some(&'x'));
}

#[test]
fn completing_a_slot_that_holds_an_object_is_rejected() {
    let mut store = Store::new();
    let reservation = store.reserve();
    let handle = reservation.handle();
    assert!(store.awaits(&reservation));
    assert_eq!(store.try_complete(reservation, 'a').unwrap(), handle);
    assert_eq!(*store.get(&handle), 'a');

    let mut elsewhere: Store<char> = Store::new();
    let same_slot = elsewhere.reserve();
    assert_eq!(same_slot.id(), handle.id());
    assert!(!store.awaits(&same_slot));
    let rejected = store.try_complete(same_slot, 'b').unwrap_err();
    assert_eq!(rejected.object, 'b');
    assert_eq!(rejected.reservation.id(), handle.id());
    assert_eq!(*store.get(&handle), 'a');
    assert_eq!(store.len(), 1);
}

#[test]
fn completing_a_slot_that_the_store_lacks_is_rejected() {
    let mut store: Store<u8> = Store::new();
    let mut elsewhere: Store<u8> = Store::new();
    let reservation = elsewhere.reserve();
    assert!(!store.awaits(&reservation));
    assert!(store.try_complete(reservation, 1).is_err());
    assert!(store.is_empty());
}

#[test]
fn a_handle_keeps_its_object_through_later_operations() {
    let mut store = Store::with_block_size(3);
    let first = store.insert(100u64);
    let pending = store.reserve();
    let second = store.insert(200u64);
    assert_eq!(*store.get(&first), 100);

    let mut later = Vec::new();
    for value in 0..20u64 {
        later.push(store.insert(value));
        assert_eq!(*store.get(&first), 100);
        assert_eq!(*store.get(&second), 200);
    }
    let completed = store.complete(pending, 150u64);
    let another = store.reserve();
    store.complete(another, 7u64);

    assert_eq!(*store.get(&first), 100);
    assert_eq!(*store.get(&second), 200);
    assert_eq!(*store.get(&completed), 150);
    for (value, handle) in later.iter().enumerate() {
        assert_eq!(*store.get(handle), value as u64);
    }
}

#[test]
fn try_get_finds_nothing_for_a_slot_that_the_store_lacks() {
    let mut large = Store::new();
    large.insert(1u8);
    let beyond = large.insert(2u8);
    let mut small = Store::new();
    small.insert(9u8);
    assert_eq!(small.try_get(&beyond), None);
    assert_eq!(large.try_get(&beyond), Some(&2));
}

#[test]
fn handles_are_equal_if_and_only_if_they_name_the_same_slot() {
    let mut store = Store::new();
    let a = store.insert(5u32);
    let b = store.insert(5u32);
    let a_again = a.clone();
    assert!(a == a_again);
    assert!(a != b);
    assert_eq!(a, a_again);
    assert_ne!(a, b);
}

#[test]
fn handles_are_ordered_by_identity() {
    let mut store = Store::new();
    let a = store.insert(9u32);
    let b = store.insert(1u32);
    assert!(a < b);
    assert!(b > a);
    assert!(a <= a.clone());
    assert_eq!(a.partial_cmp(&b), Some(std::cmp::Ordering::Less));
    assert_eq!(b.partial_cmp(&a), Some(std::cmp::Ordering::Greater));
    assert_eq!(a.partial_cmp(&a), Some(std::cmp::Ordering::Equal));
    assert_eq!(a.cmp(&b), std::cmp::Ordering::Less);
    let mut sorted = vec![b, a];
    sorted.sort();
    assert_eq!(sorted, vec![a, b]);
}

#[test]
fn equal_handles_hash_alike() {
    let mut store = Store::new();
    let a = store.insert(1u32);
    let b = store.insert(2u32);
    let mut seen: HashSet<Handle<u32>> = HashSet::new();
    assert!(seen.insert(a));
    assert!(!seen.insert(a.clone()));
    assert!(seen.insert(b));
    assert_eq!(seen.len(), 2);
}

#[test]
fn iteration_visits_every_slot_in_insertion_order() {
    let mut store = Store::with_block_size(2);
    let handles = vec![store.insert('a'), store.insert('b'), store.insert('c')];
    let mut iter = store.iter();
    assert_eq!(iter.remaining(), 3);
    let mut visited = Vec::new();
    while let Some(handle) = iter.next() {
        visited.push(handle);
    }
    assert_eq!(visited, handles);
    assert_eq!(iter.remaining(), 0);
    assert!(iter.next().is_none());
    let objects: Vec<char> = visited.iter().map(|handle| *store.get(handle)).collect();
    assert_eq!(objects, vec!['a', 'b', 'c']);
}

#[test]
fn iteration_is_a_snapshot() {
    let mut store = Store::new();
    let a = store.insert(1u32);
    let mut iter = store.iter();
    store.insert(2u32);
    store.insert(3u32);
    assert_eq!(iter.next(), Some(a));
    assert_eq!(iter.next(), None);
    assert_eq!(store.iter().remaining(), 3);
}

#[test]
fn iteration_can_start_over() {
    let mut store = Store::new();
    let a = store.insert(1u32);
    let b = store.insert(2u32);
    let mut first = store.iter();
    assert_eq!(first.next(), Some(a));
    let mut second = store.iter();
    assert_eq!(second.next(), Some(a));
    assert_eq!(second.next(), Some(b));
    assert_eq!(first.next(), Some(b));
}

#[test]
fn iteration_visits_reserved_slots_too() {
    let mut store: Store<u32> = Store::new();
    let reservation = store.reserve();
    let mut iter = store.iter();
    assert_eq!(iter.next(), Some(reservation.handle()));
    assert_eq!(iter.next(), None);
}

#[test]
fn new_stores_are_empty() {
    let stores = Stores::new();
    assert!(stores.curves.is_empty());
    assert!(stores.global_curves.is_empty());
    assert!(stores.surfaces.is_empty());
    assert!(stores.faces.is_empty());
    let stores = Stores::default();
    assert_eq!(stores.curves.len(), 0);
    assert_eq!(stores.faces.len(), 0);
}

#[test]
fn default_store_is_empty() {
    let store: Store<u8> = Store::default();
    assert!(store.is_empty());
}
