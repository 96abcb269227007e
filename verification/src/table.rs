//! The resource table: an id-indexed registry of type-erased resources.

use crate::error::{bad_resource_id, bad_resource_id_view, CustomError};
use crate::resource::{erased, Resource, ResourceHandle};
use std::collections::BTreeMap;
use std::sync::Arc;
use vstd::prelude::*;
use vstd::std_specs::iter::IteratorSpec;

verus! {

/// An integer that names an entry of a [`ResourceTable`].
pub type ResourceId = u32;

/// A registry of resources of any type, each under an id that the table
/// assigns and never assigns again.
pub struct ResourceTable {
    index: BTreeMap<ResourceId, ResourceHandle>,
    next_rid: ResourceId,
}

/// What one successful operation did to a table. An operation that fails
/// leaves the table as it was.
pub enum TableEvent {
    /// An insertion, with the id that it was given.
    Added(ResourceId),
    /// A replacement of the entry under an id.
    Replaced(ResourceId),
    /// A removal of the entry under an id, by `take`, `take_any` or `close`.
    Removed(ResourceId),
}

impl View for ResourceTable {
    type V = Map<ResourceId, ResourceHandle>;

    closed spec fn view(&self) -> Map<ResourceId, ResourceHandle> {
        self.index@
    }
}

impl ResourceTable {
    /// The id that the next insertion will get.
    pub closed spec fn next_rid(&self) -> ResourceId {
        self.next_rid
    }

    /// Every id in use was assigned by this table's counter.
    pub open spec fn wf(&self) -> bool {
        forall|rid: ResourceId| self@.contains_key(rid) ==> rid < self.next_rid()
    }

    /// `post` is `pre` after an insertion that was given the id `rid`.
    pub open spec fn added(pre: ResourceTable, post: ResourceTable, rid: ResourceId) -> bool {
        &&& rid == pre.next_rid()
        &&& post.next_rid() == rid + 1
        &&& post@ == pre@.insert(rid, post@[rid])
    }

    /// `post` is `pre` with another entry under `rid`.
    pub open spec fn replaced(pre: ResourceTable, post: ResourceTable, rid: ResourceId) -> bool {
        &&& pre@.contains_key(rid)
        &&& post.next_rid() == pre.next_rid()
        &&& post@ == pre@.insert(rid, post@[rid])
    }

    /// `post` is `pre` without the entry under `rid`.
    pub open spec fn removed(pre: ResourceTable, post: ResourceTable, rid: ResourceId) -> bool {
        &&& pre@.contains_key(rid)
        &&& post.next_rid() == pre.next_rid()
        &&& post@ == pre@.remove(rid)
    }

    /// `post` holds what `pre` holds and will assign the same id next.
    pub open spec fn unchanged(pre: ResourceTable, post: ResourceTable) -> bool {
        &&& post.next_rid() == pre.next_rid()
        &&& post@ == pre@
    }

    /// `post` is what `event` makes of `pre`.
    pub open spec fn step(pre: ResourceTable, post: ResourceTable, event: TableEvent) -> bool {
        match event {
            TableEvent::Added(rid) => Self::added(pre, post, rid),
            TableEvent::Replaced(rid) => Self::replaced(pre, post, rid),
            TableEvent::Removed(rid) => Self::removed(pre, post, rid),
        }
    }

    /// Whether `rid` names an entry that holds a resource of type `T`.
    pub open spec fn holds<T: Resource>(&self, rid: ResourceId) -> bool {
        self@.contains_key(rid) && self@[rid].is_type::<T>()
    }

    /// An empty table, whose first id is 0.
    pub fn new() -> (table: ResourceTable)
        ensures
            table@ == Map::<ResourceId, ResourceHandle>::empty(),
            table.next_rid() == 0,
            table.wf(),
    {
        ResourceTable { index: BTreeMap::new(), next_rid: 0 }
    }

    /// Whether the table has assigned every id that it can: an insertion needs
    /// a table that is not exhausted.
    pub fn is_exhausted(&self) -> (exhausted: bool)
        ensures
            exhausted == (self.next_rid() == u32::MAX),
    {
        self.next_rid == u32::MAX
    }

    /// Inserts `resource`, which the table then owns, under the next id.
    pub fn add<T: Resource>(&mut self, resource: T) -> (rid: ResourceId)
        requires
            old(self).wf(),
            old(self).next_rid() < u32::MAX,
        ensures
            final(self).wf(),
            Self::added(*old(self), *final(self), rid),
            final(self)@[rid].wraps(resource),
    {
        self.add_rc(Arc::new(resource))
    }

    /// Inserts a resource that may have other owners under the next id.
    pub fn add_rc<T: Resource>(&mut self, resource: Arc<T>) -> (rid: ResourceId)
        requires
            old(self).wf(),
            old(self).next_rid() < u32::MAX,
        ensures
            final(self).wf(),
            Self::added(*old(self), *final(self), rid),
            final(self)@[rid].wraps(*resource),
    {
        let handle = ResourceHandle::new(resource);
        let rid: ResourceId = self.next_rid;
        self.next_rid = rid + 1;
        self.index.insert(rid, handle);
        proof {
            assert forall|k: ResourceId| self@.contains_key(k) implies k < self.next_rid() by {
                if k != rid {
                    assert(old(self)@.contains_key(k));
                }
            }
        }
        rid
    }

    /// Whether `rid` names an entry.
    pub fn has(&self, rid: ResourceId) -> (present: bool)
        ensures
            present == self@.contains_key(rid),
    {
        self.index.contains_key(&rid)
    }

    /// The resource under `rid`, if it is of type `T`. An id that names no
    /// entry and an entry of another type give the same error.
    pub fn get<T: Resource>(&self, rid: ResourceId) -> (r: Result<Arc<T>, CustomError>)
        ensures
            r is Ok <==> self.holds::<T>(rid),
            r matches Ok(resource) ==> self@[rid].wraps_only(*resource),
            r matches Err(e) ==> e@ == bad_resource_id_view(),
    {
        match self.index.get(&rid) {
            Some(handle) => match handle.downcast_rc::<T>() {
                Some(resource) => Ok(resource),
                None => Err(bad_resource_id()),
            },
            None => Err(bad_resource_id()),
        }
    }

    /// The entry under `rid`, whatever its type.
    pub fn get_any(&self, rid: ResourceId) -> (r: Result<ResourceHandle, CustomError>)
        ensures
            match r {
                Ok(handle) => self@.contains_key(rid) && handle == self@[rid],
                Err(e) => !self@.contains_key(rid) && e@ == bad_resource_id_view(),
            },
    {
        match self.index.get(&rid) {
            Some(handle) => Ok(handle.share()),
            None => Err(bad_resource_id()),
        }
    }

    /// Puts `resource` in place of the entry under `rid`, which must exist.
    pub fn replace<T: Resource>(&mut self, rid: ResourceId, resource: T)
        requires
            old(self).wf(),
            old(self)@.contains_key(rid),
        ensures
            final(self).wf(),
            Self::replaced(*old(self), *final(self), rid),
            final(self)@[rid].wraps(resource),
    {
        let handle = ResourceHandle::new(Arc::new(resource));
        self.index.insert(rid, handle);
        proof {
            assert forall|k: ResourceId| self@.contains_key(k) implies k < self.next_rid() by {
                assert(old(self)@.contains_key(k));
            }
        }
    }

    /// Removes the entry under `rid` and returns its resource, if it is of type
    /// `T`. An entry of another type stays where it is. The resource's `close`
    /// hook is not run.
    pub fn take<T: Resource>(&mut self, rid: ResourceId) -> (r: Result<Arc<T>, CustomError>)
        requires
            old(self).wf(),
        ensures
            final(self).wf(),
            match r {
                Ok(resource) => {
                    &&& old(self).holds::<T>(rid)
                    &&& old(self)@[rid].wraps_only(*resource)
                    &&& Self::removed(*old(self), *final(self), rid)
                },
                Err(e) => {
                    &&& !old(self).holds::<T>(rid)
                    &&& e@ == bad_resource_id_view()
                    &&& Self::unchanged(*old(self), *final(self))
                },
            },
    {
        match self.get::<T>(rid) {
            Ok(resource) => {
                self.index.remove(&rid);
                Ok(resource)
            },
            Err(e) => Err(e),
        }
    }

    /// Removes the entry under `rid` and returns it. The resource's `close` hook
    /// is not run.
    pub fn take_any(&mut self, rid: ResourceId) -> (r: Result<ResourceHandle, CustomError>)
        requires
            old(self).wf(),
        ensures
            final(self).wf(),
            match r {
                Ok(handle) => {
                    &&& handle == old(self)@[rid]
                    &&& Self::removed(*old(self), *final(self), rid)
                },
                Err(e) => {
                    &&& !old(self)@.contains_key(rid)
                    &&& e@ == bad_resource_id_view()
                    &&& Self::unchanged(*old(self), *final(self))
                },
            },
    {
        let removed = self.index.remove(&rid);
        proof {
            assert forall|k: ResourceId| self@.contains_key(k) implies k < self.next_rid() by {
                assert(old(self)@.contains_key(k));
            }
        }
        match removed {
            Some(handle) => Ok(handle),
            None => {
                assert(self@ =~= old(self)@);
                Err(bad_resource_id())
            },
        }
    }

    /// The id and the name of every entry, each entry once, in no order that a
    /// caller may rely on.
    pub fn names(&self) -> (names: Vec<(ResourceId, String)>)
        ensures
            names@.len() == self@.dom().len(),
            forall|i: int| 0 <= i < names@.len() ==> self@.contains_key(#[trigger] names@[i].0),
            forall|rid: ResourceId|
                self@.contains_key(rid) ==> exists|i: int|
                    0 <= i < names@.len() && #[trigger] names@[i].0 == rid,
            forall|i: int, j: int|
                0 <= i < j < names@.len() ==> #[trigger] names@[i].0 != #[trigger] names@[j].0,
    {
        let ghost entries = self.index.iter().remaining();
        let mut names: Vec<(ResourceId, String)> = Vec::new();
        for entry in it: self.index.iter()
            invariant
                it.seq() == entries,
                names@.len() == it.index(),
                forall|i: int| 0 <= i < it.index() ==> #[trigger] names@[i].0 == *entries[i].0,
        {
            names.push((*entry.0, entry.1.name()));
        }
        proof {
            assert(entries.no_duplicates());
            assert forall|rid: ResourceId| self@.contains_key(rid) implies exists|i: int|
                0 <= i < names@.len() && #[trigger] names@[i].0 == rid by {
                assert(entries.contains((&rid, &self.index@[rid])));
                let i = choose|i: int| 0 <= i < entries.len() && entries[i] == (&rid, &self.index@[rid]);
                assert(names@[i].0 == rid);
            }
            assert forall|i: int, j: int| 0 <= i < j < names@.len() implies #[trigger] names@[i].0
                != #[trigger] names@[j].0 by {
                if names@[i].0 == names@[j].0 {
                    assert(self.index@.contains_key(*entries[i].0));
                    assert(self.index@.contains_key(*entries[j].0));
                    assert(self.index@[*entries[i].0] == *entries[i].1);
                    assert(self.index@[*entries[j].0] == *entries[j].1);
                    assert(entries[i] == entries[j]);
                }
            }
        }
        names
    }

    /// Removes the entry under `rid` and runs the resource's `close` hook. Other
    /// holders of the resource keep it: the table gives up its own reference
    /// only.
    pub fn close(&mut self, rid: ResourceId) -> (r: Result<(), CustomError>)
        requires
            old(self).wf(),
        ensures
            final(self).wf(),
            match r {
                Ok(_) => Self::removed(*old(self), *final(self), rid),
                Err(e) => {
                    &&& !old(self)@.contains_key(rid)
                    &&& e@ == bad_resource_id_view()
                    &&& Self::unchanged(*old(self), *final(self))
                },
            },
    {
        match self.take_any(rid) {
            Ok(handle) => {
                handle.close();
                Ok(())
            },
            Err(e) => Err(e),
        }
    }
}

impl Default for ResourceTable {
    fn default() -> (table: ResourceTable)
        ensures
            table@ == Map::<ResourceId, ResourceHandle>::empty(),
            table.next_rid() == 0,
            table.wf(),
    {
        ResourceTable::new()
    }
}

/// A run of a table: `states[0]` is where it starts, and each event of
/// `events` leads from one state to the next.
pub open spec fn valid_history(states: Seq<ResourceTable>, events: Seq<TableEvent>) -> bool {
    &&& states.len() == events.len() + 1
    &&& forall|i: int|
        0 <= i < events.len() ==> ResourceTable::step(
            #[trigger] states[i],
            states[i + 1],
            events[i],
        )
}

/// Every event keeps a table well formed.
pub proof fn lemma_step_keeps_well_formed(
    pre: ResourceTable,
    post: ResourceTable,
    event: TableEvent,
)
    requires
        pre.wf(),
        ResourceTable::step(pre, post, event),
    ensures
        post.wf(),
{
    assert forall|rid: ResourceId| post@.contains_key(rid) implies rid < post.next_rid() by {
        match event {
            TableEvent::Added(new) => {
                if rid != new {
                    assert(pre@.contains_key(rid));
                }
            },
            TableEvent::Replaced(_) => {
                assert(pre@.contains_key(rid));
            },
            TableEvent::Removed(_) => {
                assert(pre@.contains_key(rid));
            },
        }
    }
}

/// A run that starts from a well-formed table passes through well-formed
/// tables only.
pub proof fn lemma_history_stays_well_formed(
    states: Seq<ResourceTable>,
    events: Seq<TableEvent>,
    at: int,
)
    requires
        valid_history(states, events),
        states[0].wf(),
        0 <= at < states.len(),
    ensures
        states[at].wf(),
    decreases at,
{
    if 0 < at {
        lemma_history_stays_well_formed(states, events, at - 1);
        assert(ResourceTable::step(states[at - 1], states[at - 1 + 1], events[at - 1]));
        lemma_step_keeps_well_formed(states[at - 1], states[at], events[at - 1]);
    }
}

/// Along a run, the id that the table will assign next never goes down.
pub proof fn lemma_next_rid_never_decreases(
    states: Seq<ResourceTable>,
    events: Seq<TableEvent>,
    from: int,
    to: int,
)
    requires
        valid_history(states, events),
        0 <= from <= to < states.len(),
    ensures
        states[from].next_rid() <= states[to].next_rid(),
    decreases to - from,
{
    if from < to {
        lemma_next_rid_never_decreases(states, events, from, to - 1);
        assert(ResourceTable::step(states[to - 1], states[to - 1 + 1], events[to - 1]));
    }
}

/// Ids are assigned in strictly increasing order, whatever insertions,
/// replacements and removals lie between two insertions: of two insertions in
/// one run, the later gets the greater id. So no id is assigned twice.
pub proof fn lemma_issued_ids_strictly_increase(
    states: Seq<ResourceTable>,
    events: Seq<TableEvent>,
    earlier: int,
    later: int,
)
    requires
        valid_history(states, events),
        0 <= earlier < later < events.len(),
        events[earlier] is Added,
        events[later] is Added,
    ensures
        events[earlier]->Added_0 < events[later]->Added_0,
{
    assert(ResourceTable::step(states[earlier], states[earlier + 1], events[earlier]));
    assert(ResourceTable::step(states[later], states[later + 1], events[later]));
    lemma_next_rid_never_decreases(states, events, earlier + 1, later);
}

/// Looking up as a `T` what was inserted as a resource of another type fails.
/// That the two types differ is said of the resource: nothing of type `T` is
/// the same object as `inserted`.
pub proof fn lemma_lookup_as_another_type_fails<T: Resource, U: Resource>(
    table: ResourceTable,
    rid: ResourceId,
    inserted: U,
)
    requires
        table@.contains_key(rid),
        table@[rid].wraps(inserted),
        forall|other: T| erased(&other) != erased(&inserted),
    ensures
        !table.holds::<T>(rid),
{
    assert forall|other: T| !table@[rid].wraps(other) by {
        assert(erased(&other) != erased(&inserted));
    }
}

/// A `take` that fails because the entry is of another type keeps the entry:
/// the id names it as before, and `get_any` finds it.
pub proof fn lemma_failed_take_keeps_the_entry<T: Resource>(
    pre: ResourceTable,
    post: ResourceTable,
    rid: ResourceId,
)
    requires
        pre@.contains_key(rid),
        !pre.holds::<T>(rid),
        ResourceTable::unchanged(pre, post),
    ensures
        post@.contains_key(rid),
        post@[rid] == pre@[rid],
{
}

/// An id that a well-formed table assigns names no entry that the table holds
/// at that time.
pub proof fn lemma_issued_id_is_fresh(pre: ResourceTable, post: ResourceTable, rid: ResourceId)
    requires
        pre.wf(),
        ResourceTable::added(pre, post, rid),
    ensures
        !pre@.contains_key(rid),
{
}

} // verus!
