//! A registry of drawable objects that stores a position with each object.
//!
//! The registry is a list. Adding appends, and looking an identifier up finds
//! the first entry that carries it, so an identifier that is added twice
//! keeps drawing its first object until that one is removed: callers that
//! want one object per identifier remove before they add, or use
//! [`NyanObj::update_object`].
//!
//! [`NyanObj::update_object`] is strict: it fails for an identifier that is
//! not registered.

use vstd::prelude::*;
use vstd::string::StringExecFns;
use crate::cursor::Cursor;
use crate::errors::{ErrorModel, NyanError};
use crate::objects::{outcome_view, render, DrawPlan, DrawPlanModel, ObjectModel, Objects};

verus! {

/// One entry of the registry: an object, its identifier and where it is drawn.
#[derive(Debug)]
pub struct NyanObjs {
    object: Objects,
    id: String,
    coordinate: (u16, u16),
}

/// The mathematical value of an entry.
pub ghost struct Entry {
    pub id: Seq<char>,
    pub object: ObjectModel,
    pub coordinate: (u16, u16),
}

impl View for NyanObjs {
    type V = Entry;

    closed spec fn view(&self) -> Entry {
        Entry { id: self.id@, object: self.object@, coordinate: self.coordinate }
    }
}

impl NyanObjs {
    /// An entry for `object` under `id`, drawn at `coordinate`.
    pub fn new(object: Objects, id: String, coordinate: (u16, u16)) -> (entry: NyanObjs)
        ensures
            entry@ == (Entry { id: id@, object: object@, coordinate }),
    {
        NyanObjs { object, id, coordinate }
    }
}

/// The identifiers of the entries, in order.
pub open spec fn ids(entries: Seq<Entry>) -> Seq<Seq<char>> {
    entries.map_values(|e: Entry| e.id)
}

/// The index of the first entry under `id`, if there is one.
pub open spec fn position(entries: Seq<Entry>, id: Seq<char>) -> Option<int> {
    ids(entries).index_of_first(id)
}

/// The entries without the first one under `id`.
pub open spec fn without(entries: Seq<Entry>, id: Seq<char>) -> Seq<Entry> {
    match position(entries, id) {
        Some(i) => entries.remove(i),
        None => entries,
    }
}

/// What drawing the first entry under `id` emits, at its stored position.
pub open spec fn drawn_in_place(entries: Seq<Entry>, id: Seq<char>) -> Result<
    DrawPlanModel,
    ErrorModel,
> {
    match position(entries, id) {
        Some(i) => render(
            id,
            entries[i].object,
            Some(Cursor::Move(entries[i].coordinate.0, entries[i].coordinate.1)),
        ),
        None => Err(ErrorModel::ObjectNotFound(id)),
    }
}

/// What drawing the first entry under `id` emits after the movement `moveto`.
pub open spec fn drawn_after(entries: Seq<Entry>, id: Seq<char>, moveto: Cursor) -> Result<
    DrawPlanModel,
    ErrorModel,
> {
    match position(entries, id) {
        Some(i) => render(id, entries[i].object, Some(moveto)),
        None => Err(ErrorModel::ObjectNotFound(id)),
    }
}

/// The first entry under `id` is the one at `i`: it carries `id`, and no
/// entry before it does.
pub proof fn lemma_position_is(entries: Seq<Entry>, id: Seq<char>, i: int)
    requires
        0 <= i < entries.len(),
        entries[i].id == id,
        forall|j: int| 0 <= j < i ==> entries[j].id != id,
    ensures
        position(entries, id) == Some(i),
{
    let names = ids(entries);
    names.index_of_first_ensures(id);
    assert(names[i] == id);
    assert(names.contains(id));
    let first = names.index_of_first(id).unwrap();
    if first < i {
        assert(entries[first].id == names[first]);
    } else if i < first {
        assert(names[i] == id);
    }
}

/// No entry is under `id` exactly if no entry carries it.
pub proof fn lemma_position_none(entries: Seq<Entry>, id: Seq<char>)
    ensures
        position(entries, id) is None <==> (forall|j: int|
            0 <= j < entries.len() ==> (#[trigger] entries[j]).id != id),
{
    let names = ids(entries);
    names.index_of_first_ensures(id);
    if position(entries, id) is None {
        assert forall|j: int| 0 <= j < entries.len() implies (#[trigger] entries[j]).id != id by {
            if entries[j].id == id {
                assert(names[j] == id);
                assert(names.contains(id));
            }
        }
    } else {
        let first = names.index_of_first(id).unwrap();
        assert(entries[first].id == names[first]);
    }
}

/// A collection of objects with positions, looked up by identifier.
pub struct NyanObj {
    inner: Vec<NyanObjs>,
}

impl View for NyanObj {
    type V = Seq<Entry>;

    closed spec fn view(&self) -> Seq<Entry> {
        self.inner@.map_values(|e: NyanObjs| e@)
    }
}

impl NyanObj {
    /// An empty registry.
    pub fn new() -> (registry: NyanObj)
        ensures
            registry@ == Seq::<Entry>::empty(),
    {
        let registry = NyanObj { inner: Vec::new() };
        assert(registry@ =~= Seq::<Entry>::empty());
        registry
    }

    /// Appends `object` under `id`, to be drawn at `coordinate`.
    pub fn add_object(&mut self, id: &str, object: Objects, coordinate: (u16, u16))
        ensures
            final(self)@ == old(self)@.push(Entry { id: id@, object: object@, coordinate }),
    {
        self.inner.push(NyanObjs::new(object, String::from_str(id), coordinate));
        assert(self@ =~= old(self)@.push(Entry { id: id@, object: object@, coordinate }));
    }

    /// Appends `object` under `id`, to be drawn at the origin.
    pub fn add_object_with_default(&mut self, id: &str, object: Objects)
        ensures
            final(self)@ == old(self)@.push(Entry { id: id@, object: object@, coordinate: (0, 0) }),
    {
        self.inner.push(NyanObjs::new(object, String::from_str(id), (0, 0)));
        assert(self@ =~= old(self)@.push(Entry { id: id@, object: object@, coordinate: (0, 0) }));
    }

    /// Removes the first entry under `id`. Fails, and changes nothing, where
    /// there is none.
    pub fn remove_object(&mut self, id: &str) -> (r: Result<(), NyanError>)
        ensures
            final(self)@ == without(old(self)@, id@),
            position(old(self)@, id@) is Some ==> r is Ok,
            position(old(self)@, id@) is None ==> r is Err && r->Err_0@
                == ErrorModel::ObjectNotFound(id@),
    {
        match self.get(id) {
            Some(index) => {
                self.inner.remove(index);
                assert(self@ =~= old(self)@.remove(index as int));
                Ok(())
            },
            None => Err(NyanError::not_found(id)),
        }
    }

    /// Replaces the entry under `id` wholesale: removes the first entry under
    /// `id` and appends `object` under `id`, to be drawn at `coordinate`.
    /// Fails, and changes nothing, where `id` is not registered.
    pub fn update_object(&mut self, id: &str, object: Objects, coordinate: (u16, u16)) -> (r:
        Result<(), NyanError>)
        ensures
            position(old(self)@, id@) is Some ==> r is Ok && final(self)@ == without(
                old(self)@,
                id@,
            ).push(Entry { id: id@, object: object@, coordinate }),
            position(old(self)@, id@) is None ==> final(self)@ == old(self)@ && r is Err
                && r->Err_0@ == ErrorModel::ObjectNotFound(id@),
    {
        match self.remove_object(id) {
            Ok(()) => {
                self.add_object(id, object, coordinate);
                Ok(())
            },
            Err(e) => Err(e),
        }
    }

    /// The index of the first entry under `id`, if there is one.
    pub fn get(&self, id: &str) -> (found: Option<usize>)
        ensures
            match found {
                Some(index) => position(self@, id@) == Some(index as int) && index < self@.len(),
                None => position(self@, id@) is None,
            },
    {
        let key = String::from_str(id);
        let mut index: usize = 0;
        while index < self.inner.len()
            invariant
                index <= self.inner.len(),
                key@ == id@,
                forall|j: int| 0 <= j < index ==> self@[j].id != id@,
            decreases self.inner.len() - index,
        {
            if self.inner[index].id == key {
                proof {
                    lemma_position_is(self@, id@, index as int);
                }
                return Some(index);
            }
            index += 1;
        }
        proof {
            lemma_position_none(self@, id@);
        }
        None
    }

    /// Decides what drawing the first object under `id` emits: a cursor
    /// movement to its stored position, then what its kind emits.
    pub fn draw_object(&self, id: &str) -> (r: Result<DrawPlan, NyanError>)
        ensures
            outcome_view(r) == drawn_in_place(self@, id@),
    {
        match self.get(id) {
            Some(object_index) => {
                let obj = &self.inner[object_index];
                obj.object.draw(id, Some(Cursor::Move(obj.coordinate.0, obj.coordinate.1)))
            },
            None => Err(NyanError::not_found(id)),
        }
    }

    /// Decides what drawing the first object under `id` emits after the
    /// cursor has made the movement `moveto`, whatever position is stored.
    pub fn draw_with_move(&self, id: &str, moveto: Cursor) -> (r: Result<DrawPlan, NyanError>)
        ensures
            outcome_view(r) == drawn_after(self@, id@, moveto),
    {
        match self.get(id) {
            Some(object_index) => self.inner[object_index].object.draw(id, Some(moveto)),
            None => Err(NyanError::not_found(id)),
        }
    }

    /// The error that reports a draw whose cursor movement failed with
    /// `cause`: a cursor error whose reason is the message of the cause.
    pub fn move_failed(cause: &NyanError) -> (e: NyanError)
        ensures
            e@ == ErrorModel::Cursor(crate::errors::message_of(cause@)),
    {
        NyanError::Cursor(cause.message())
    }
}

/// Whether no two entries share an identifier.
pub open spec fn distinct_ids(entries: Seq<Entry>) -> bool {
    ids(entries).no_duplicates()
}

/// An object that was just added is found: drawing under its identifier
/// never fails for want of an object. Where the identifier was new, the
/// object drawn is the added one, at the position given with it; where it was
/// taken, the earlier entry keeps being drawn.
pub proof fn lemma_added_is_drawn(entries: Seq<Entry>, added: Entry, moveto: Cursor)
    ensures
        position(entries.push(added), added.id) is Some,
        drawn_in_place(entries.push(added), added.id) != Err::<DrawPlanModel, ErrorModel>(
            ErrorModel::ObjectNotFound(added.id),
        ),
        drawn_after(entries.push(added), added.id, moveto) != Err::<DrawPlanModel, ErrorModel>(
            ErrorModel::ObjectNotFound(added.id),
        ),
        position(entries, added.id) is None ==> position(entries.push(added), added.id) == Some(
            entries.len() as int,
        ) && drawn_in_place(entries.push(added), added.id) == render(
            added.id,
            added.object,
            Some(Cursor::Move(added.coordinate.0, added.coordinate.1)),
        ),
        position(entries, added.id) is Some ==> position(entries.push(added), added.id)
            == position(entries, added.id) && drawn_in_place(entries.push(added), added.id)
            == drawn_in_place(entries, added.id),
{
    let grown = entries.push(added);
    let id = added.id;
    lemma_position_none(entries, id);
    ids(entries).index_of_first_ensures(id);
    if position(entries, id) is None {
        lemma_position_is(grown, id, entries.len() as int);
    } else {
        let first = position(entries, id).unwrap();
        assert(ids(entries)[first] == entries[first].id);
        assert forall|j: int| 0 <= j < first implies grown[j].id != id by {
            assert(ids(entries)[j] == entries[j].id);
        }
        lemma_position_is(grown, id, first);
    }
}

/// Removing from a registry in which no two entries share an identifier
/// leaves nothing under the identifier removed: drawing it then fails for
/// want of an object.
pub proof fn lemma_removed_is_not_drawn(entries: Seq<Entry>, id: Seq<char>, moveto: Cursor)
    requires
        distinct_ids(entries),
    ensures
        position(without(entries, id), id) is None,
        drawn_in_place(without(entries, id), id) == Err::<DrawPlanModel, ErrorModel>(
            ErrorModel::ObjectNotFound(id),
        ),
        drawn_after(without(entries, id), id, moveto) == Err::<DrawPlanModel, ErrorModel>(
            ErrorModel::ObjectNotFound(id),
        ),
        distinct_ids(without(entries, id)),
{
    let rest = without(entries, id);
    ids(entries).index_of_first_ensures(id);
    match position(entries, id) {
        Some(first) => {
            assert forall|j: int| 0 <= j < rest.len() implies (#[trigger] rest[j]).id != id by {
                let k = if j < first {
                    j
                } else {
                    j + 1
                };
                assert(rest[j] == entries[k]);
                assert(ids(entries)[k] == entries[k].id);
                assert(ids(entries)[first] == id);
            }
            assert forall|i: int, j: int| 0 <= i < j < rest.len() implies ids(rest)[i] != ids(
                rest,
            )[j] by {
                let a = if i < first {
                    i
                } else {
                    i + 1
                };
                let b = if j < first {
                    j
                } else {
                    j + 1
                };
                assert(ids(rest)[i] == ids(entries)[a]);
                assert(ids(rest)[j] == ids(entries)[b]);
            }
        },
        None => {
            lemma_position_none(entries, id);
        },
    }
    lemma_position_none(rest, id);
}

/// Adding twice under one identifier leaves two entries, and where the
/// identifier was new it is the first of the two that is drawn.
pub proof fn lemma_first_addition_wins(entries: Seq<Entry>, first: Entry, second: Entry)
    requires
        first.id == second.id,
        position(entries, first.id) is None,
    ensures
        entries.push(first).push(second).len() == entries.len() + 2,
        position(entries.push(first).push(second), first.id) == Some(entries.len() as int),
        drawn_in_place(entries.push(first).push(second), first.id) == render(
            first.id,
            first.object,
            Some(Cursor::Move(first.coordinate.0, first.coordinate.1)),
        ),
{
    lemma_added_is_drawn(entries, first, Cursor::Move(0, 0));
    lemma_added_is_drawn(entries.push(first), second, Cursor::Move(0, 0));
}

} // verus!
