//! The component store: per entity, an independent presence or absence of
//! each component type. An entity is nothing but an index into the store.

use vstd::prelude::*;

use crate::entities::Player;
use crate::entities::Position;
use crate::entities::Rect;
use crate::entities::Velocity;
use crate::entities::Wall;

verus! {

/// The components one entity carries. Each component is attached or detached
/// independently of the others (composition, not inheritance).
#[derive(Clone, Copy, Debug, PartialEq)]
pub struct Ent {
    pub position: Option<Position>,
    pub velocity: Option<Velocity>,
    pub rect: Option<Rect>,
    pub wall: Option<Wall>,
    pub player: Option<Player>,
}

impl Ent {
    /// An entity with no components at all.
    pub fn empty() -> (e: Ent)
        ensures
            e == (Ent {
                position: None,
                velocity: None,
                rect: None,
                wall: None,
                player: None,
            }),
    {
        Ent { position: None, velocity: None, rect: None, wall: None, player: None }
    }

    /// Whether the bounding box this entity carries, if any, has positive
    /// extent on both axes. Sizes are set once at creation and never change.
    pub open spec fn rect_wf(self) -> bool {
        match self.rect {
            Some(r) => r.width >= 1 && r.height >= 1,
            None => true,
        }
    }
}

/// The set of entities of one session. All entities are created at world
/// initialization; none is destroyed or spawned at runtime.
pub struct World {
    pub ents: Vec<Ent>,
}

impl View for World {
    type V = Seq<Ent>;

    open spec fn view(&self) -> Seq<Ent> {
        self.ents@
    }
}

impl World {
    /// Every bounding box in the store has positive extent on both axes.
    pub open spec fn wf(self) -> bool {
        forall|i: int| 0 <= i < self@.len() ==> (#[trigger] self@[i]).rect_wf()
    }

    /// An empty world.
    pub fn new() -> (w: World)
        ensures
            w@ =~= Seq::<Ent>::empty(),
            w.wf(),
    {
        World { ents: Vec::new() }
    }

    /// Adds one entity and returns its index. A bounding box, if the entity
    /// carries one, must have positive extent on both axes.
    pub fn push(&mut self, e: Ent) -> (idx: usize)
        requires
            old(self).wf(),
            e.rect_wf(),
        ensures
            final(self)@ == old(self)@.push(e),
            final(self).wf(),
            idx == old(self)@.len(),
    {
        let idx = self.ents.len();
        self.ents.push(e);
        idx
    }

    /// How many entities the world holds.
    pub fn len(&self) -> (n: usize)
        ensures
            n == self@.len(),
    {
        self.ents.len()
    }

    /// Reads the components of entity `idx`.
    pub fn get(&self, idx: usize) -> (e: Ent)
        requires
            idx < self@.len(),
        ensures
            e == self@[idx as int],
    {
        self.ents[idx]
    }
}

} // verus!
