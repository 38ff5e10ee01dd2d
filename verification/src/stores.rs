//! Append-only object storage.

pub mod handle;
pub mod history;
pub mod store;

pub use self::handle::{Handle, ObjectId, Reservation};
pub use self::store::{Iter, Rejected, Store, DEFAULT_BLOCK_SIZE};

use vstd::prelude::*;
use crate::objects::{Curve, Face, GlobalCurve, Surface};

verus! {

/// The available object stores.
#[derive(Debug)]
pub struct Stores {
    /// Store for curves
    pub curves: Store<Curve>,
    /// Store for global curves
    pub global_curves: Store<GlobalCurve>,
    /// Store for surfaces
    pub surfaces: Store<Surface>,
    /// Store for faces
    pub faces: Store<Face>,
}

impl Stores {
    /// Whether every store is well formed.
    pub open spec fn wf(&self) -> bool {
        &&& self.curves.wf()
        &&& self.global_curves.wf()
        &&& self.surfaces.wf()
        &&& self.faces.wf()
    }

    /// Whether every store is empty and has blocks of the default size, as
    /// the stores of a new instance are.
    pub open spec fn is_new(&self) -> bool {
        &&& self.curves@ == Seq::<Option<Curve>>::empty()
        &&& self.global_curves@ == Seq::<Option<GlobalCurve>>::empty()
        &&& self.surfaces@ == Seq::<Option<Surface>>::empty()
        &&& self.faces@ == Seq::<Option<Face>>::empty()
        &&& self.curves.block_size() == DEFAULT_BLOCK_SIZE
        &&& self.global_curves.block_size() == DEFAULT_BLOCK_SIZE
        &&& self.surfaces.block_size() == DEFAULT_BLOCK_SIZE
        &&& self.faces.block_size() == DEFAULT_BLOCK_SIZE
    }

    /// Constructs a new instance of `Stores`: every store is empty and has
    /// blocks of [`DEFAULT_BLOCK_SIZE`] slots.
    pub fn new() -> (stores: Self)
        ensures
            stores.wf(),
            stores.is_new(),
    {
        Stores {
            curves: Store::new(),
            global_curves: Store::new(),
            surfaces: Store::new(),
            faces: Store::new(),
        }
    }
}

impl Default for Stores {
    fn default() -> (stores: Self)
        ensures
            stores.wf(),
            stores.is_new(),
    {
        Stores::new()
    }
}

} // verus!
