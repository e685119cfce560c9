//! A registry of drawable objects, keyed by identifier.
//!
//! The registry is a plain mapping: an identifier has at most one object, and
//! adding under an identifier that is taken replaces the object. Nothing
//! depends on an order of the entries; the caller decides what is drawn when.
//!
//! [`NyanObj::update_object`] is lenient: it replaces the object of a
//! registered identifier and registers an identifier that is new.

use vstd::prelude::*;
use vstd::hash_map::StringHashMap;
use vstd::string::StringExecFns;
use crate::cursor::Cursor;
use crate::errors::{ErrorModel, NyanError};
use crate::objects::{drawn, outcome_view, render, DrawPlan, DrawPlanModel, ObjectModel, Objects};

verus! {

/// A collection of objects, each under its own identifier.
pub struct NyanObj {
    objects: StringHashMap<Objects>,
}

impl View for NyanObj {
    type V = Map<Seq<char>, ObjectModel>;

    closed spec fn view(&self) -> Map<Seq<char>, ObjectModel> {
        self.objects@.map_values(|o: Objects| o@)
    }
}

impl NyanObj {
    /// An empty registry.
    pub fn new() -> (registry: NyanObj)
        ensures
            registry@ == Map::<Seq<char>, ObjectModel>::empty(),
    {
        let registry = NyanObj { objects: StringHashMap::new() };
        assert(registry@ =~= Map::<Seq<char>, ObjectModel>::empty());
        registry
    }

    /// Registers `object` under `id`, in place of whatever was registered there.
    pub fn add_object(&mut self, id: &str, object: Objects)
        ensures
            final(self)@ == old(self)@.insert(id@, object@),
    {
        self.objects.insert(String::from_str(id), object);
        assert(self@ =~= old(self)@.insert(id@, object@));
    }

    /// Removes the object registered under `id`. Fails, and changes nothing,
    /// where there is none.
    pub fn remove_object(&mut self, id: &str) -> (r: Result<(), NyanError>)
        ensures
            old(self)@.contains_key(id@) ==> r is Ok && final(self)@ == old(self)@.remove(id@),
            !old(self)@.contains_key(id@) ==> final(self)@ == old(self)@ && r is Err
                && r->Err_0@ == ErrorModel::ObjectNotFound(id@),
    {
        if self.objects.contains_key(id) {
            self.objects.remove(id);
            assert(self@ =~= old(self)@.remove(id@));
            Ok(())
        } else {
            Err(NyanError::not_found(id))
        }
    }

    /// Registers `object` under `id` after removing what was registered
    /// there. An identifier that was not registered is registered.
    pub fn update_object(&mut self, id: &str, object: Objects)
        ensures
            final(self)@ == old(self)@.remove(id@).insert(id@, object@),
            final(self)@ == old(self)@.insert(id@, object@),
    {
        self.objects.remove(id);
        self.objects.insert(String::from_str(id), object);
        assert(self@ =~= old(self)@.remove(id@).insert(id@, object@));
        assert(self@ =~= old(self)@.insert(id@, object@));
    }

    /// Decides what drawing the object under `id` emits. The registry stores
    /// no position, so nothing moves the cursor.
    pub fn draw_object(&self, id: &str) -> (r: Result<DrawPlan, NyanError>)
        ensures
            outcome_view(r) == drawn(self@, id@, None),
    {
        match self.objects.get(id) {
            Some(object) => object.draw(id, None),
            None => Err(NyanError::not_found(id)),
        }
    }

    /// Decides what drawing the object under `id` emits after the cursor
    /// has made the movement `moveto`.
    pub fn draw_with_move(&self, id: &str, moveto: Cursor) -> (r: Result<DrawPlan, NyanError>)
        ensures
            outcome_view(r) == drawn(self@, id@, Some(moveto)),
    {
        match self.objects.get(id) {
            Some(object) => object.draw(id, Some(moveto)),
            None => Err(NyanError::not_found(id)),
        }
    }
}

/// An object that was just added is found: drawing it emits what its kind
/// emits, and never fails for want of the object.
pub proof fn lemma_added_is_drawn(
    registry: Map<Seq<char>, ObjectModel>,
    id: Seq<char>,
    object: ObjectModel,
    cursor: Option<Cursor>,
)
    ensures
        drawn(registry.insert(id, object), id, cursor) == render(id, object, cursor),
        drawn(registry.insert(id, object), id, cursor) != Err::<DrawPlanModel, ErrorModel>(
            ErrorModel::ObjectNotFound(id),
        ),
{
}

/// An object that was removed is gone: drawing it fails for want of the
/// object, while every other identifier draws as before.
pub proof fn lemma_removed_is_not_drawn(
    registry: Map<Seq<char>, ObjectModel>,
    id: Seq<char>,
    other: Seq<char>,
    cursor: Option<Cursor>,
)
    ensures
        drawn(registry.remove(id), id, cursor) == Err::<DrawPlanModel, ErrorModel>(
            ErrorModel::ObjectNotFound(id),
        ),
        other != id ==> drawn(registry.remove(id), other, cursor) == drawn(registry, other, cursor),
{
}

/// Adding twice under one identifier leaves one entry for it, the second
/// object: the registry is what adding the second object alone gives, and
/// it has as many entries as after the first addition.
pub proof fn lemma_last_addition_wins(
    registry: Map<Seq<char>, ObjectModel>,
    id: Seq<char>,
    first: ObjectModel,
    second: ObjectModel,
)
    ensures
        registry.insert(id, first).insert(id, second) == registry.insert(id, second),
        registry.insert(id, first).insert(id, second)[id] == second,
        registry.insert(id, first).insert(id, second).dom() == registry.insert(id, first).dom(),
        Map::<Seq<char>, ObjectModel>::empty().insert(id, first).insert(id, second).len() == 1,
{
    assert(registry.insert(id, first).insert(id, second) =~= registry.insert(id, second));
    assert(registry.insert(id, first).insert(id, second).dom() =~= registry.insert(id, first).dom());
    let single = Map::<Seq<char>, ObjectModel>::empty().insert(id, first).insert(id, second);
    assert(single.dom() =~= set![id]);
}

} // verus!
