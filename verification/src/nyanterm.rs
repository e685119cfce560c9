//! The smallest registry: objects are added under an identifier and drawn by it.

use vstd::prelude::*;
use vstd::hash_map::StringHashMap;
use crate::errors::NyanError;
use crate::objects::{drawn, outcome_view, DrawPlan, ObjectModel, Objects};

verus! {

/// A map from identifiers to objects that only grows.
pub struct NyanTermObjs {
    objects: StringHashMap<Objects>,
}

impl View for NyanTermObjs {
    type V = Map<Seq<char>, ObjectModel>;

    closed spec fn view(&self) -> Map<Seq<char>, ObjectModel> {
        self.objects@.map_values(|o: Objects| o@)
    }
}

impl NyanTermObjs {
    /// An empty registry.
    pub fn new() -> (registry: NyanTermObjs)
        ensures
            registry@ == Map::<Seq<char>, ObjectModel>::empty(),
    {
        let registry = NyanTermObjs { objects: StringHashMap::new() };
        assert(registry@ =~= Map::<Seq<char>, ObjectModel>::empty());
        registry
    }

    /// Registers `object` under `id`, in place of whatever was registered there.
    pub fn add_object(&mut self, id: String, object: Objects)
        ensures
            final(self)@ == old(self)@.insert(id@, object@),
    {
        self.objects.insert(id, object);
        assert(self@ =~= old(self)@.insert(id@, object@));
    }

    /// Decides what drawing the object under `id` emits. The registry stores
    /// no position, so nothing moves the cursor.
    pub fn draw_object(&self, id: String) -> (r: Result<DrawPlan, NyanError>)
        ensures
            outcome_view(r) == drawn(self@, id@, None),
    {
        match self.objects.get(id.as_str()) {
            Some(object) => object.draw(id.as_str(), None),
            None => Err(NyanError::ObjectNotFound(id)),
        }
    }
}

} // verus!
