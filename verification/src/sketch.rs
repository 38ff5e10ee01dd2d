//! Sketches: two-dimensional shapes made of faces.

use std::collections::BTreeMap;
use vstd::std_specs::btree::{increasing_seq, spec_keys_iter};
use vstd::std_specs::cmp::OrdSpec;
use vstd::std_specs::iter::IteratorSpec;
use vstd::prelude::*;
use crate::builder::SketchBuilder;
use crate::objects::Face;
use crate::stores::{Handle, ObjectId, Stores};

verus! {

/// A set of faces, each given by its handle.
///
/// The set is seen as the set of the ids of its faces. A face is in the set
/// once, however often it is added, and the order of adding leaves no trace.
#[derive(Clone, Debug, Eq, PartialEq, Hash, Ord, PartialOrd)]
pub struct FaceSet {
    // The faces' ids are the keys; the values say nothing.
    ids: BTreeMap<u64, ()>,
}

impl View for FaceSet {
    type V = Set<ObjectId>;

    closed spec fn view(&self) -> Set<ObjectId> {
        self.ids@.dom().map(|id: u64| ObjectId(id))
    }
}

/// The ids of the handles in `faces`.
pub open spec fn ids_of(faces: Seq<Handle<Face>>) -> Set<ObjectId> {
    faces.map_values(|face: Handle<Face>| face@).to_set()
}

impl FaceSet {
    /// Makes an empty set.
    pub fn new() -> (set: Self)
        ensures
            set@ == Set::<ObjectId>::empty(),
    {
        let set = FaceSet { ids: BTreeMap::new() };
        assert(set@ =~= Set::<ObjectId>::empty());
        set
    }

    /// Adds a face. Says whether the face was new to the set.
    pub fn insert(&mut self, face: Handle<Face>) -> (added: bool)
        ensures
            final(self)@ == old(self)@.insert(face@),
            added == !old(self)@.contains(face@),
    {
        broadcast use vstd::std_specs::btree::group_btree_axioms;

        let ghost before = self.ids@.dom();
        let replaced = self.ids.insert(face.id().0, ());
        proof {
            let after = self.ids@.dom();
            assert forall|id: ObjectId| self@.contains(id) <==> old(self)@.insert(
                face@,
            ).contains(id) by {
                lemma_id_in_set(before, id);
                lemma_id_in_set(after, id);
            }
            lemma_id_in_set(before, face@);
        }
        replaced.is_none()
    }

    /// Whether the face is in the set.
    pub fn contains(&self, face: &Handle<Face>) -> (found: bool)
        ensures
            found == self@.contains(face@),
    {
        broadcast use vstd::std_specs::btree::group_btree_axioms;

        proof {
            lemma_id_in_set(self.ids@.dom(), face@);
        }
        let id = face.id().0;
        self.ids.contains_key(&id)
    }

    /// The number of faces in the set.
    pub fn len(&self) -> (len: usize)
        ensures
            len == self@.len(),
            self@.finite(),
    {
        broadcast use vstd::std_specs::btree::group_btree_axioms;

        proof {
            lemma_ids_count(self.ids@.dom());
        }
        self.ids.len()
    }

    /// The handles of the faces in the set, in ascending order of their ids.
    pub fn handles(&self) -> (handles: Vec<Handle<Face>>)
        ensures
            ids_of(handles@) == self@,
            handles@.len() == self@.len(),
            forall|i: int, j: int|
                0 <= i < j < handles@.len() ==> handles@[i]@.0 < handles@[j]@.0,
    {
        broadcast use vstd::std_specs::btree::group_btree_axioms;

        let mut handles: Vec<Handle<Face>> = Vec::new();
        let ghost keys = spec_keys_iter(&self.ids).remaining().unref();
        for id in iter: self.ids.keys()
            invariant
                iter.seq().unref() == keys,
                handles@.len() == iter.index(),
                forall|k: int| 0 <= k < handles@.len() ==> handles@[k]@ == ObjectId(keys[k]),
        {
            handles.push(Handle::new(ObjectId(*id)));
        }
        proof {
            let present = self.ids@.dom();
            let ids = handles@.map_values(|face: Handle<Face>| face@);
            lemma_ids_count(present);
            assert forall|id: ObjectId| ids.to_set().contains(id) <==> self@.contains(id) by {
                lemma_id_in_set(present, id);
                if ids.contains(id) {
                    let k = choose|k: int| 0 <= k < ids.len() && ids[k] == id;
                    assert(keys[k] == id.0);
                }
                if present.contains(id.0) {
                    let k = choose|k: int| 0 <= k < keys.len() && keys[k] == id.0;
                    assert(ids[k] == id);
                }
            }
            let borrowed = spec_keys_iter(&self.ids).remaining();
            assert forall|i: int, j: int| 0 <= i < j < handles@.len() implies handles@[i]@.0
                < handles@[j]@.0 by {
                assert(keys[i] == *borrowed[i]);
                assert(keys[j] == *borrowed[j]);
                lemma_keys_ascend(borrowed, i, j);
            }
        }
        handles
    }

    /// Whether the set has no face.
    pub fn is_empty(&self) -> (empty: bool)
        ensures
            empty == (self@ == Set::<ObjectId>::empty()),
    {
        broadcast use vstd::std_specs::btree::group_btree_axioms;

        let empty = self.ids.is_empty();
        proof {
            let present = self.ids@.dom();
            if empty {
                assert forall|id: ObjectId| !self@.contains(id) by {
                    lemma_id_in_set(present, id);
                }
                assert(self@ =~= Set::<ObjectId>::empty());
            } else {
                lemma_id_in_set(present, ObjectId(present.choose()));
            }
        }
        empty
    }
}

impl Default for FaceSet {
    fn default() -> (set: Self)
        ensures
            set@ == Set::<ObjectId>::empty(),
    {
        FaceSet::new()
    }
}

/// Set semantics: sequences of handles that hold the same handles, in
/// whatever order and however often each, have the same ids, and so make
/// the same set of faces.
pub proof fn lemma_order_leaves_no_trace(first: Seq<Handle<Face>>, second: Seq<Handle<Face>>)
    requires
        forall|face: Handle<Face>| first.contains(face) <==> second.contains(face),
    ensures
        ids_of(first) == ids_of(second),
{
    let first_ids = first.map_values(|face: Handle<Face>| face@);
    let second_ids = second.map_values(|face: Handle<Face>| face@);
    assert forall|id: ObjectId| first_ids.contains(id) <==> second_ids.contains(id) by {
        if first_ids.contains(id) {
            let k = choose|k: int| 0 <= k < first_ids.len() && first_ids[k] == id;
            assert(first.contains(first[k]));
            let l = choose|l: int| 0 <= l < second.len() && second[l] == first[k];
            assert(second_ids[l] == id);
        }
        if second_ids.contains(id) {
            let k = choose|k: int| 0 <= k < second_ids.len() && second_ids[k] == id;
            assert(second.contains(second[k]));
            let l = choose|l: int| 0 <= l < first.len() && first[l] == second[k];
            assert(first_ids[l] == id);
        }
    }
}

/// The ids of the first `i + 1` handles are the ids of the first `i`, and
/// that of the next.
pub proof fn lemma_ids_of_take(faces: Seq<Handle<Face>>, i: int)
    requires
        0 <= i < faces.len(),
    ensures
        ids_of(faces.take(i + 1)) == ids_of(faces.take(i)).insert(faces[i]@),
{
    let ids = faces.map_values(|face: Handle<Face>| face@);
    let shorter = ids.take(i);
    let longer = ids.take(i + 1);
    assert(faces.take(i + 1).map_values(|face: Handle<Face>| face@) =~= longer);
    assert(faces.take(i).map_values(|face: Handle<Face>| face@) =~= shorter);
    assert forall|id: ObjectId| longer.to_set().contains(id) <==> shorter.to_set().insert(
        ids[i],
    ).contains(id) by {
        if longer.contains(id) {
            let k = choose|k: int| 0 <= k < longer.len() && longer[k] == id;
            assert(k < i ==> shorter[k] == id);
        }
        if shorter.contains(id) {
            let k = choose|k: int| 0 <= k < shorter.len() && shorter[k] == id;
            assert(longer[k] == id);
        }
        assert(longer[i] == ids[i]);
    }
}

/// An id is among the wrapped numbers of a set exactly if its number is in
/// the set.
proof fn lemma_id_in_set(keys: Set<u64>, id: ObjectId)
    ensures
        keys.map(|key: u64| ObjectId(key)).contains(id) <==> keys.contains(id.0),
{
    if keys.contains(id.0) {
        assert(ObjectId(id.0) == id);
    }
}

/// In a sequence of keys that a tree hands out as increasing, an earlier
/// key is the smaller number.
proof fn lemma_keys_ascend(keys: Seq<&u64>, i: int, j: int)
    requires
        increasing_seq(keys),
        0 <= i < j < keys.len(),
    ensures
        *keys[i] < *keys[j],
{
    broadcast use vstd::laws_cmp::group_laws_cmp;

    assert(vstd::laws_cmp::obeys_cmp::<&u64>());
    vstd::std_specs::btree::axiom_increasing_seq_meaning(keys);
    assert(OrdSpec::cmp_spec(&keys[i], &keys[j]) is Less);
}

/// Wrapping each number of a finite set into an id keeps their count.
proof fn lemma_ids_count(keys: Set<u64>)
    requires
        keys.finite(),
    ensures
        keys.map(|id: u64| ObjectId(id)).finite(),
        keys.map(|id: u64| ObjectId(id)).len() == keys.len(),
{
    let wrapped = keys.map(|id: u64| ObjectId(id));
    keys.lemma_map_finite(|id: u64| ObjectId(id));
    vstd::set_lib::lemma_map_size(keys, wrapped, |id: u64| ObjectId(id));
}

/// A two-dimensional shape: a set of faces.
///
/// The faces of a sketch are meant to lie in one surface. Nothing here checks
/// that they do.
#[derive(Clone, Debug, Eq, PartialEq, Hash, Ord, PartialOrd)]
pub struct Sketch {
    faces: FaceSet,
}

impl Sketch {
    /// The faces of the sketch.
    pub closed spec fn spec_faces(&self) -> &FaceSet {
        &self.faces
    }

    /// Starts building a sketch: no surface chosen, no face added.
    pub fn builder(objects: &Stores) -> (builder: SketchBuilder<'_>)
        ensures
            builder.objects == objects,
            builder.surface is None,
            builder.faces@ == Set::<ObjectId>::empty(),
    {
        SketchBuilder { objects, surface: None, faces: FaceSet::new() }
    }

    /// Constructs the sketch that has exactly the given faces.
    pub fn new(faces: Vec<Handle<Face>>) -> (sketch: Self)
        ensures
            sketch.faces()@ == ids_of(faces@),
    {
        let mut set = FaceSet::new();
        let mut i: usize = 0;
        while i < faces.len()
            invariant
                0 <= i <= faces.len(),
                set@ == ids_of(faces@.take(i as int)),
            decreases faces.len() - i,
        {
            set.insert(faces[i]);
            proof {
                lemma_ids_of_take(faces@, i as int);
            }
            i = i + 1;
        }
        assert(faces@.take(faces.len() as int) =~= faces@);
        Sketch { faces: set }
    }

    /// Constructs the sketch that has the faces of the given set.
    pub fn from_faces(faces: FaceSet) -> (sketch: Self)
        ensures
            sketch.faces()@ == faces@,
    {
        Sketch { faces }
    }

    /// The faces of the sketch.
    #[verifier::when_used_as_spec(spec_faces)]
    pub fn faces(&self) -> (faces: &FaceSet)
        ensures
            faces == self.faces(),
    {
        &self.faces
    }
}

} // verus!
