//! The tree builder: a recorded sequence of spawns.
//!
//! The builder pairs "where new children attach" (its current scope) with the
//! immutable [`AssetContext`].  Every spawn appends one record holding the
//! fresh entity, the parent it attaches to, the finished widget description
//! and any extra marker.  Entities are allocated in spawn order, so the
//! handle of the `i`-th record is exactly `Entity(i)`; a host adapter can
//! replay the records against the engine in order, parents always coming
//! before their children.

use vstd::prelude::*;

use crate::model::{AssetContext, ButtonBundle, ImageBundle, NodeBundle, TextBundle, TextSection};

verus! {

/// Opaque handle of a spawned widget.  Handles are allocated by the builder
/// in spawn order and are only ever threaded back to the caller, never
/// interpreted.
#[derive(Clone, Copy, PartialEq, Eq, Hash, Debug, Structural)]
pub struct Entity(pub u64);

/// Lets a freshly returned [`Entity`] be written into a caller-owned slot
/// ergonomically, for later identification of the widget.
pub trait EntityWriter: Sized {
    /// The handle this writer stores.
    spec fn handle(self) -> Entity;

    /// Copies this entity into an `Option` slot.
    fn set(self, entity: &mut Option<Entity>)
        ensures
            *final(entity) == Some(self.handle()),
    ;

    /// Pushes a copy of this entity onto a `Vec`.
    fn push(self, destination: &mut Vec<Entity>)
        ensures
            final(destination)@ == old(destination)@.push(self.handle()),
    ;
}

impl EntityWriter for Entity {
    open spec fn handle(self) -> Entity {
        self
    }

    fn set(self, entity: &mut Option<Entity>) {
        *entity = Some(self);
    }

    fn push(self, destination: &mut Vec<Entity>) {
        destination.push(self);
    }
}

/// Extra data attached to a widget when it is spawned, commonly a marker for
/// event handling elsewhere in the host application.
#[derive(Clone, Copy, PartialEq, Eq, Debug, Structural)]
pub enum Extras {
    /// Nothing beyond the widget itself.
    Empty,
    /// An application-chosen marker value.
    Marker(u64),
}

/// The finished description a widget was spawned with.
#[derive(Clone, PartialEq, Eq, Debug)]
pub enum Widget {
    Node(NodeBundle),
    Button(ButtonBundle),
    Image(ImageBundle),
    Text { bundle: TextBundle, sections: Vec<TextSection> },
}

/// One spawn: the fresh entity, the parent it attached to (`None` for a
/// root), its widget description and its extras.
#[derive(Clone, PartialEq, Eq, Debug)]
pub struct SpawnRecord {
    pub entity: Entity,
    pub parent: Option<Entity>,
    pub widget: Widget,
    pub extras: Extras,
}

/// Builder for widget trees.  It carries the spawn log, the entity that new
/// children currently attach to, and the [`AssetContext`] for the children
/// that need it.
#[derive(Debug)]
pub struct UiChildBuilder {
    pub records: Vec<SpawnRecord>,
    pub parent: Option<Entity>,
    pub assets: AssetContext,
}

/// Handle on a just-spawned widget, for reading its entity.
#[derive(Clone, Copy, PartialEq, Eq, Debug, Structural)]
pub struct UiEntityCommands {
    pub entity: Entity,
}

impl UiEntityCommands {
    /// The entity of the spawned widget.
    pub fn id(&self) -> (e: Entity)
        ensures
            e == self.entity,
    {
        self.entity
    }
}

impl UiChildBuilder {
    /// Well-formedness of the log: the `i`-th spawn got handle `Entity(i)`,
    /// every recorded parent was spawned strictly earlier, and the current
    /// scope, if any, is a spawned entity.
    pub open spec fn wf(self) -> bool {
        &&& forall|i: int|
            0 <= i < self.records@.len() ==> (#[trigger] self.records@[i]).entity == Entity(
                i as u64,
            )
        &&& forall|i: int|
            0 <= i < self.records@.len() ==> ((#[trigger] self.records@[i]).parent matches Some(p)
                ==> p.0 < i)
        &&& (self.parent matches Some(p) ==> p.0 < self.records@.len())
    }

    /// Creates a builder with an empty log, attaching at the top level.
    pub fn new(assets: AssetContext) -> (b: UiChildBuilder)
        ensures
            b.wf(),
            b.records@.len() == 0,
            b.parent is None,
            b.assets == assets,
    {
        UiChildBuilder { records: Vec::new(), parent: None, assets }
    }

    /// The context carrier threaded through the tree.
    pub fn assets(&self) -> (a: &AssetContext)
        ensures
            *a == self.assets,
    {
        &self.assets
    }

    /// Records the spawn of `widget` with `extras`, attached to the entity of
    /// the current scope, and returns the fresh handle.  This is the single
    /// point where entities come into being: the recorded parent is exactly
    /// the scope at the moment of the call.
    pub fn spawn(&mut self, widget: Widget, extras: Extras) -> (r: UiEntityCommands)
        requires
            old(self).wf(),
        ensures
            final(self).wf(),
            r.entity == Entity(old(self).records@.len() as u64),
            final(self).records@ == old(self).records@.push(
                SpawnRecord { entity: r.entity, parent: old(self).parent, widget, extras },
            ),
            final(self).parent == old(self).parent,
            final(self).assets == old(self).assets,
    {
        let entity = Entity(self.records.len() as u64);
        let record = SpawnRecord { entity, parent: self.parent, widget, extras };
        self.records.push(record);
        UiEntityCommands { entity }
    }

    /// Records the spawn of `widget` with `extras` attached to the given
    /// parent slot instead of the current scope (`None` spawns a root).
    pub fn spawn_under(&mut self, parent: Option<Entity>, widget: Widget, extras: Extras) -> (r:
        UiEntityCommands)
        requires
            old(self).wf(),
            parent matches Some(p) ==> p.0 < old(self).records@.len(),
        ensures
            final(self).wf(),
            r.entity == Entity(old(self).records@.len() as u64),
            final(self).records@ == old(self).records@.push(
                SpawnRecord { entity: r.entity, parent, widget, extras },
            ),
            final(self).parent == old(self).parent,
            final(self).assets == old(self).assets,
    {
        let entity = Entity(self.records.len() as u64);
        let record = SpawnRecord { entity, parent, widget, extras };
        self.records.push(record);
        UiEntityCommands { entity }
    }

    /// Replaces the extras recorded for `target`, leaving everything else of
    /// the log unchanged.
    pub fn insert(&mut self, target: Entity, extras: Extras)
        requires
            old(self).wf(),
            target.0 < old(self).records@.len(),
        ensures
            final(self).wf(),
            final(self).records@ == old(self).records@.update(
                target.0 as int,
                SpawnRecord { extras, ..old(self).records@[target.0 as int] },
            ),
            final(self).parent == old(self).parent,
            final(self).assets == old(self).assets,
    {
        let n = self.records.len();
        assert(target.0 < n);
        let i = target.0 as usize;
        let record = &mut self.records[i];
        record.extras = extras;
    }

    /// Enters the scope of `entity`: children spawned until the matching
    /// [`end_children`](Self::end_children) attach to it.  Returns the
    /// previous scope, to be restored there.
    pub fn begin_children(&mut self, entity: Entity) -> (prev: Option<Entity>)
        requires
            old(self).wf(),
            entity.0 < old(self).records@.len(),
        ensures
            final(self).wf(),
            prev == old(self).parent,
            final(self).parent == Some(entity),
            final(self).records == old(self).records,
            final(self).assets == old(self).assets,
    {
        let prev = self.parent;
        self.parent = Some(entity);
        prev
    }

    /// Leaves a scope entered by [`begin_children`](Self::begin_children),
    /// restoring the scope that was current before.
    pub fn end_children(&mut self, prev: Option<Entity>)
        requires
            old(self).wf(),
            prev matches Some(p) ==> p.0 < old(self).records@.len(),
        ensures
            final(self).wf(),
            final(self).parent == prev,
            final(self).records == old(self).records,
            final(self).assets == old(self).assets,
    {
        self.parent = prev;
    }
}

/// Law: in a well-formed log every recorded parent is an entity that an
/// earlier record spawned — no widget is orphaned and none is re-parented to
/// something that does not exist yet.
pub proof fn lemma_parents_spawned_earlier(b: UiChildBuilder)
    requires
        b.wf(),
    ensures
        forall|i: int|
            0 <= i < b.records@.len() ==> ((#[trigger] b.records@[i]).parent matches Some(p)
                ==> p.0 < i && b.records@[p.0 as int].entity == p),
{
    assert forall|i: int|
        0 <= i < b.records@.len() implies ((#[trigger] b.records@[i]).parent matches Some(p)
        ==> p.0 < i && b.records@[p.0 as int].entity == p) by {
        if b.records@[i].parent is Some {
            let p = b.records@[i].parent->0;
            assert(p.0 < i);
            assert(b.records@[p.0 as int].entity == Entity((p.0 as int) as u64));
        }
    }
}

} // verus!
