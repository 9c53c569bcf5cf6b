//! The frame driver: owns the world, the held-direction register and the
//! elapsed-time bookkeeping, and runs the pipeline once per host callback.
//! The timestamp is recorded but never scales the physics: each tick
//! advances by fixed per-call increments whatever the wall-clock delta.

use vstd::prelude::*;

use crate::HEIGHT;
use crate::WIDTH;
use crate::entities::Player;
use crate::entities::Position;
use crate::entities::Rect;
use crate::entities::Velocity;
use crate::entities::Wall;
use crate::input::InputState;
use crate::input::direction_for_key;
use crate::input::key_direction;
use crate::systems;
use crate::systems::tick_sys;
use crate::world::Ent;
use crate::world::World;

verus! {

/// The floor entity of the initial world: immovable geometry spanning most
/// of the world's width near its bottom edge.
pub open spec fn initial_floor() -> Ent {
    Ent {
        position: Some(Position { x: 100, y: (HEIGHT - 300) as i64 }),
        velocity: None,
        rect: Some(Rect { width: (WIDTH - 200) as i64, height: 200 }),
        wall: Some(Wall {}),
        player: None,
    }
}

/// The player entity of the initial world: starts airborne above the floor,
/// at rest.
pub open spec fn initial_player() -> Ent {
    Ent {
        position: Some(Position { x: 100, y: (HEIGHT - 1000) as i64 }),
        velocity: Some(Velocity { dx: 0, dy: 0 }),
        rect: Some(Rect { width: 600, height: 600 }),
        wall: None,
        player: Some(Player { jumping: true }),
    }
}

/// The ball entity of the initial world: a passive dynamic object, subject
/// to gravity and friction but not to input or collision resolution.
pub open spec fn initial_ball() -> Ent {
    Ent {
        position: Some(Position { x: (WIDTH / 2) as i64, y: 100 }),
        velocity: Some(Velocity { dx: 0, dy: 0 }),
        rect: Some(Rect { width: 200, height: 200 }),
        wall: None,
        player: None,
    }
}

/// The three entities every session starts from, in entity order.
pub open spec fn initial_world() -> Seq<Ent> {
    seq![initial_floor(), initial_player(), initial_ball()]
}

/// The ordered (Position, Rect) pairs of the first `n` entities that carry
/// both components: what the host draws each frame.
pub open spec fn renderables_prefix(s: Seq<Ent>, n: int) -> Seq<(Position, Rect)>
    decreases n,
{
    if n <= 0 {
        Seq::empty()
    } else {
        let rest = renderables_prefix(s, n - 1);
        if s[n - 1].position is Some && s[n - 1].rect is Some {
            rest.push((s[n - 1].position->Some_0, s[n - 1].rect->Some_0))
        } else {
            rest
        }
    }
}

/// The ordered (Position, Rect) pairs of every entity that carries both
/// components.
pub open spec fn renderables(s: Seq<Ent>) -> Seq<(Position, Rect)> {
    renderables_prefix(s, s.len() as int)
}

/// One simulation session: the component store, the held-direction register
/// and the last timestamp the host handed in.
pub struct State {
    pub timestamp: i32,
    pub world: World,
    pub input: InputState,
}

impl State {
    /// A fresh session: floor, player and ball at their fixed starting
    /// components, no direction held, timestamp zero.
    pub fn new() -> (s: State)
        ensures
            s.world@ == initial_world(),
            s.world.wf(),
            s.input.none_held(),
            s.timestamp == 0,
    {
        let mut world = World::new();
        world.push(
            Ent {
                position: Some(Position { x: 100, y: HEIGHT - 300 }),
                velocity: None,
                rect: Some(Rect { width: WIDTH - 200, height: 200 }),
                wall: Some(Wall {}),
                player: None,
            },
        );
        world.push(
            Ent {
                position: Some(Position { x: 100, y: HEIGHT - 1000 }),
                velocity: Some(Velocity { dx: 0, dy: 0 }),
                rect: Some(Rect { width: 600, height: 600 }),
                wall: None,
                player: Some(Player { jumping: true }),
            },
        );
        world.push(
            Ent {
                position: Some(Position { x: WIDTH / 2, y: 100 }),
                velocity: Some(Velocity { dx: 0, dy: 0 }),
                rect: Some(Rect { width: 200, height: 200 }),
                wall: None,
                player: None,
            },
        );
        proof {
            assert(world@ =~= initial_world());
        }
        State { timestamp: 0, world, input: InputState::new() }
    }

    /// Records that the key with this code went down. Codes outside the
    /// fixed table are ignored.
    pub fn key_down(&mut self, code: u32)
        ensures
            final(self).input == (match key_direction(code) {
                Some(d) => old(self).input.press(d),
                None => old(self).input,
            }),
            final(self).world == old(self).world,
            final(self).timestamp == old(self).timestamp,
    {
        match direction_for_key(code) {
            Some(d) => self.input.set(d),
            None => {},
        }
    }

    /// Records that the key with this code went up. Codes outside the fixed
    /// table are ignored.
    pub fn key_up(&mut self, code: u32)
        ensures
            final(self).input == (match key_direction(code) {
                Some(d) => old(self).input.release(d),
                None => old(self).input,
            }),
            final(self).world == old(self).world,
            final(self).timestamp == old(self).timestamp,
    {
        match direction_for_key(code) {
            Some(d) => self.input.clear(d),
            None => {},
        }
    }

    /// One tick: records the timestamp, then runs input, velocity
    /// integration, position integration and collision resolution, in that
    /// fixed order, against the directions held when the tick began. After
    /// the tick every velocity component lies in `[-VEL_MAX, VEL_MAX]`, and
    /// a well-formed world stays well-formed.
    pub fn update(&mut self, timestamp: i32)
        ensures
            final(self).world@ == tick_sys(old(self).world@, old(self).input),
            final(self).input == old(self).input,
            final(self).timestamp == timestamp,
            old(self).world.wf() ==> final(self).world.wf(),
            forall|i: int|
                0 <= i < final(self).world@.len() && (#[trigger] final(self).world@[i]).velocity
                    is Some ==> -systems::VEL_MAX <= final(self).world@[i].velocity->Some_0.dx
                    <= systems::VEL_MAX && -systems::VEL_MAX
                    <= final(self).world@[i].velocity->Some_0.dy <= systems::VEL_MAX,
    {
        self.timestamp = timestamp;
        systems::input(&mut self.world, &self.input);
        systems::update_velocity(&mut self.world);
        systems::apply_velocity(&mut self.world);
        systems::player_collision(&mut self.world);
        proof {
            crate::laws::lemma_tick_velocity_clamped(old(self).world@, old(self).input);
            crate::laws::lemma_tick_preserves_structure(old(self).world@, old(self).input);
        }
    }

    /// The read-only copy of renderable state handed to the host after a
    /// tick: one (Position, Rect) pair, by value, for every entity carrying
    /// both components, in entity order.
    pub fn snapshot(&self) -> (v: Vec<(Position, Rect)>)
        ensures
            v@ == renderables(self.world@),
    {
        let n = self.world.ents.len();
        let mut v: Vec<(Position, Rect)> = Vec::new();
        let mut i: usize = 0;
        while i < n
            invariant
                n == self.world@.len(),
                i <= n,
                v@ == renderables_prefix(self.world@, i as int),
            decreases n - i,
        {
            let e = &self.world.ents[i];
            match (e.position, e.rect) {
                (Some(p), Some(r)) => {
                    v.push((p, r));
                },
                _ => {},
            }
            i += 1;
        }
        v
    }
}

} // verus!
