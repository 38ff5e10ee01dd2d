use fj_kernel::geometry::{Curve, SurfaceGeometry};
use fj_kernel::objects::{Face, Surface};
use fj_kernel::sketch::{FaceSet, Sketch};
use fj_kernel::stores::{Handle, Stores};
use fj_math::Vector;

fn surface(stores: &mut Stores) -> Handle<Surface> {
    let geometry = SurfaceGeometry { u: Curve::x_axis(), v: Vector::from([0., 1., 0.]) };
    stores.surfaces.insert(Surface::new(geometry))
}

fn faces(stores: &mut Stores, count: usize) -> Vec<Handle<Face>> {
    let surface = surface(stores);
    (0..count).map(|_| stores.faces.insert(Face::new(surface))).collect()
}

#[test]
fn a_sketch_built_without_faces_has_none() {
    let stores = Stores::new();
    let sketch = Sketch::builder(&stores).build();
    assert!(sketch.faces().is_empty());
    assert_eq!(sketch.faces().len(), 0);
    assert_eq!(sketch.faces().handles(), Vec::new());
    assert_eq!(sketch, Sketch::new(Vec::new()));
}

#[test]
fn a_sketch_built_with_two_faces_has_exactly_those() {
    let mut stores = Stores::new();
    let all = faces(&mut stores, 3);
    let (a, b, other) = (all[0], all[1], all[2]);

    let sketch = Sketch::builder(&stores).with_faces(vec![a, b]).build();
    assert_eq!(sketch.faces().len(), 2);
    assert!(sketch.faces().contains(&a));
    assert!(sketch.faces().contains(&b));
    assert!(!sketch.faces().contains(&other));
    assert_eq!(sketch.faces().handles(), vec![a, b]);
}

#[test]
fn the_order_of_adding_faces_leaves_no_trace() {
    let mut stores = Stores::new();
    let all = faces(&mut stores, 2);
    let (a, b) = (all[0], all[1]);

    let forward = Sketch::builder(&stores).with_faces(vec![a, b]).build();
    let backward = Sketch::builder(&stores).with_faces(vec![b, a]).build();
    let one_by_one = Sketch::builder(&stores).with_faces(vec![b]).with_faces(vec![a]).build();
    assert_eq!(forward, backward);
    assert_eq!(forward, one_by_one);
    assert_eq!(forward, Sketch::new(vec![b, a]));
    assert_eq!(backward.faces().handles(), vec![a, b]);
}

#[test]
fn a_face_added_twice_is_in_the_sketch_once() {
    let mut stores = Stores::new();
    let all = faces(&mut stores, 2);
    let (a, b) = (all[0], all[1]);
    let sketch = Sketch::new(vec![a, b, a, a]);
    assert_eq!(sketch.faces().len(), 2);
    assert_eq!(sketch, Sketch::new(vec![a, b]));
}

#[test]
fn sketches_with_different_faces_differ() {
    let mut stores = Stores::new();
    let all = faces(&mut stores, 2);
    assert_ne!(Sketch::new(vec![all[0]]), Sketch::new(vec![all[1]]));
    assert_ne!(Sketch::new(vec![all[0]]), Sketch::new(vec![all[0], all[1]]));
}

#[test]
fn a_new_builder_has_no_surface_and_no_faces() {
    let stores = Stores::new();
    let builder = Sketch::builder(&stores);
    assert!(builder.surface.is_none());
    assert!(builder.faces.is_empty());
    assert!(std::ptr::eq(builder.objects, &stores));
}

#[test]
fn choosing_a_surface_keeps_the_faces() {
    let mut stores = Stores::new();
    let all = faces(&mut stores, 2);
    let elsewhere = surface(&mut stores);
    let builder = Sketch::builder(&stores).with_faces(vec![all[0]]).with_surface(elsewhere);
    assert_eq!(builder.surface, Some(elsewhere));
    let sketch = builder.with_faces(vec![all[1]]).build();
    assert_eq!(sketch.faces().handles(), all);
}

#[test]
fn faces_of_different_surfaces_are_taken_without_complaint() {
    let mut stores = Stores::new();
    let first = surface(&mut stores);
    let second = surface(&mut stores);
    let a = stores.faces.insert(Face::new(first));
    let b = stores.faces.insert(Face::new(second));
    let sketch = Sketch::builder(&stores).with_surface(first).with_faces(vec![a, b]).build();
    assert_eq!(sketch.faces().len(), 2);
    assert_eq!(stores.faces.get(&a).surface(), first);
    assert_eq!(stores.faces.get(&b).surface(), second);
}

#[test]
fn inserting_says_whether_the_face_was_new() {
    let mut stores = Stores::new();
    let all = faces(&mut stores, 2);
    let mut set = FaceSet::new();
    assert!(set.is_empty());
    assert!(set.insert(all[1]));
    assert!(!set.insert(all[1]));
    assert!(set.insert(all[0]));
    assert_eq!(set.len(), 2);
    assert!(!set.is_empty());
    assert!(set.contains(&all[0]));
    assert_eq!(set.handles(), vec![all[0], all[1]]);
}

#[test]
fn a_sketch_can_be_made_from_a_set_of_faces() {
    let mut stores = Stores::new();
    let all = faces(&mut stores, 2);
    let mut set = FaceSet::new();
    set.insert(all[0]);
    set.insert(all[1]);
    let sketch = Sketch::from_faces(set.clone());
    assert_eq!(sketch.faces(), &set);
}
