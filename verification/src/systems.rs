//! The four ordered systems of the physics pipeline. Every tick runs them in
//! this fixed sequence: input, velocity integration, position integration,
//! collision resolution. Each system is specified by a pure transformer over
//! the sequence of entities, and the executable function is proved to apply
//! exactly that transformer.

use vstd::prelude::*;

use crate::entities::Player;
use crate::entities::Position;
use crate::entities::Rect;
use crate::entities::Velocity;
use crate::input::InputState;
use crate::world::Ent;
use crate::world::World;

verus! {

/// Downward acceleration per tick, in tenths of a unit (0.1).
pub const GRAVITY: i64 = 1;

/// Horizontal speed lost per tick, in tenths of a unit (0.1).
pub const FRICTION: i64 = 1;

/// Velocity clamp bound per axis, in tenths of a unit (3.0).
pub const VEL_MAX: i64 = 30;

/// Upward speed added per tick while Up is held, in tenths of a unit (10.0).
pub const JUMP_IMPULSE: i64 = 100;

/// Speed added per tick by a held Down, Left or Right, in tenths (1.0).
pub const STEER_IMPULSE: i64 = 10;

/// `x` clamped into `[lo, hi]`.
pub open spec fn clamp_spec(x: int, lo: int, hi: int) -> int {
    if x < lo {
        lo
    } else if x > hi {
        hi
    } else {
        x
    }
}

/// `x` clamped into the representable range of `i64`: the value an addition
/// saturates to when it would leave the machine range.
pub open spec fn sat64(x: int) -> i64 {
    clamp_spec(x, i64::MIN as int, i64::MAX as int) as i64
}

/// `x` clamped into `[lo, hi]`, for bounds within the `i64` range.
fn clamp(x: i64, lo: i64, hi: i64) -> (r: i64)
    requires
        lo <= hi,
    ensures
        r == clamp_spec(x as int, lo as int, hi as int),
{
    if x < lo {
        lo
    } else if x > hi {
        hi
    } else {
        x
    }
}

/// `a + b`, saturating at the ends of the `i64` range.
fn sat_add(a: i64, b: i64) -> (r: i64)
    ensures
        r == sat64(a + b),
{
    if b >= 0 {
        if a <= i64::MAX - b {
            a + b
        } else {
            i64::MAX
        }
    } else {
        if a >= i64::MIN - b {
            a + b
        } else {
            i64::MIN
        }
    }
}

/// `a - b`, saturating at the ends of the `i64` range.
fn sat_sub(a: i64, b: i64) -> (r: i64)
    ensures
        r == sat64(a - b),
{
    if b <= 0 {
        if a <= i64::MAX + b {
            a - b
        } else {
            i64::MAX
        }
    } else {
        if a >= i64::MIN + b {
            a - b
        } else {
            i64::MIN
        }
    }
}

/// What the input system does to one entity: entities carrying both Velocity
/// and Player take the held directions' impulses, in the fixed order Up,
/// Down, Left, Right; every other entity is untouched. A held Up launches
/// (marks the player jumping) and keeps adding upward thrust every tick it
/// stays held.
pub open spec fn input_ent(e: Ent, keys: InputState) -> Ent {
    if e.velocity is Some && e.player is Some {
        let v = e.velocity->Some_0;
        let jumping = e.player->Some_0.jumping;
        let dy_up = if keys.up {
            sat64(v.dy - JUMP_IMPULSE)
        } else {
            v.dy
        };
        let dy_down = if keys.down {
            sat64(dy_up + STEER_IMPULSE)
        } else {
            dy_up
        };
        let dx_left = if keys.left {
            sat64(v.dx - STEER_IMPULSE)
        } else {
            v.dx
        };
        let dx_right = if keys.right {
            sat64(dx_left + STEER_IMPULSE)
        } else {
            dx_left
        };
        Ent {
            velocity: Some(Velocity { dx: dx_right, dy: dy_down }),
            player: Some(Player { jumping: keys.up || jumping }),
            ..e
        }
    } else {
        e
    }
}

/// The input system over the whole store.
pub open spec fn input_sys(s: Seq<Ent>, keys: InputState) -> Seq<Ent> {
    s.map_values(|e: Ent| input_ent(e, keys))
}

/// One tick of gravity on a vertical speed: add `GRAVITY`, then clamp into
/// `[-VEL_MAX, VEL_MAX]`.
pub open spec fn gravity_step(dy: i64) -> i64 {
    clamp_spec(dy + GRAVITY, -(VEL_MAX as int), VEL_MAX as int) as i64
}

/// One tick of friction on a horizontal speed: speeds decay by `FRICTION`
/// towards zero without crossing it, and are clamped into
/// `[-VEL_MAX, VEL_MAX]`; an exact zero is untouched.
pub open spec fn friction_step(dx: i64) -> i64 {
    if dx > 0 {
        clamp_spec(dx - FRICTION, 0, VEL_MAX as int) as i64
    } else if dx < 0 {
        clamp_spec(dx + FRICTION, -(VEL_MAX as int), 0) as i64
    } else {
        0
    }
}

/// What velocity integration does to one velocity: gravity on the vertical
/// axis, friction on the horizontal axis, both ending clamped.
pub open spec fn integrate_velocity(v: Velocity) -> Velocity {
    Velocity { dx: friction_step(v.dx), dy: gravity_step(v.dy) }
}

/// What velocity integration does to one entity: entities without a Velocity
/// (static geometry) are skipped.
pub open spec fn integrate_ent(e: Ent) -> Ent {
    if e.velocity is Some {
        Ent { velocity: Some(integrate_velocity(e.velocity->Some_0)), ..e }
    } else {
        e
    }
}

/// The velocity integration system over the whole store.
pub open spec fn integrate_sys(s: Seq<Ent>) -> Seq<Ent> {
    s.map_values(|e: Ent| integrate_ent(e))
}

/// What position integration does to one entity: entities with both Position
/// and Velocity move by one tick's displacement; the sums saturate at the
/// ends of the machine range and are exact everywhere else.
pub open spec fn move_ent(e: Ent) -> Ent {
    if e.position is Some && e.velocity is Some {
        let p = e.position->Some_0;
        let v = e.velocity->Some_0;
        Ent { position: Some(Position { x: sat64(p.x + v.dx), y: sat64(p.y + v.dy) }), ..e }
    } else {
        e
    }
}

/// The position integration system over the whole store.
pub open spec fn move_sys(s: Seq<Ent>) -> Seq<Ent> {
    s.map_values(|e: Ent| move_ent(e))
}

/// The half-open axis-aligned bounding-box overlap rule.
pub open spec fn overlaps(p1: Position, r1: Rect, p2: Position, r2: Rect) -> bool {
    p1.x < p2.x + r2.width && p1.x + r1.width > p2.x && p1.y < p2.y + r2.height && p1.y
        + r1.height > p2.y
}

/// Whether one entity enters the collision snapshot: every entity that has a
/// Position and a Rect and does not carry the Player tag, static geometry
/// and passive dynamic objects alike.
pub open spec fn is_target(e: Ent) -> bool {
    e.position is Some && e.rect is Some && e.player is None
}

/// The collision snapshot collected from the first `n` entities, in entity
/// order.
pub open spec fn targets_prefix(s: Seq<Ent>, n: int) -> Seq<(Position, Rect)>
    decreases n,
{
    if n <= 0 {
        Seq::empty()
    } else {
        let rest = targets_prefix(s, n - 1);
        if is_target(s[n - 1]) {
            rest.push((s[n - 1].position->Some_0, s[n - 1].rect->Some_0))
        } else {
            rest
        }
    }
}

/// The collision snapshot of the whole store, taken as of the
/// post-integration state.
pub open spec fn targets(s: Seq<Ent>) -> Seq<(Position, Rect)> {
    targets_prefix(s, s.len() as int)
}

/// A player's state after testing the first `n` snapshot entries in order.
/// Each overlap undoes this tick's vertical displacement, zeroes the
/// vertical speed, and clears the jumping flag; the first hit leaves the
/// vertical speed zero, so later hits in the same tick undo nothing more.
pub open spec fn resolve_hits(
    p: Position,
    r: Rect,
    v: Velocity,
    pl: Player,
    ts: Seq<(Position, Rect)>,
    n: int,
) -> (Position, Velocity, Player)
    decreases n,
{
    if n <= 0 {
        (p, v, pl)
    } else {
        let prev = resolve_hits(p, r, v, pl, ts, n - 1);
        if overlaps(prev.0, r, ts[n - 1].0, ts[n - 1].1) {
            (
                Position { x: prev.0.x, y: sat64(prev.0.y - prev.1.dy) },
                Velocity { dx: prev.1.dx, dy: 0 },
                Player { jumping: false },
            )
        } else {
            prev
        }
    }
}

/// What collision resolution does to one entity: only entities carrying
/// Position, Rect, Velocity and the Player tag are corrected; every other
/// entity is untouched even when it overlaps static geometry.
pub open spec fn resolve_ent(e: Ent, ts: Seq<(Position, Rect)>) -> Ent {
    if e.position is Some && e.rect is Some && e.velocity is Some && e.player is Some {
        let res = resolve_hits(
            e.position->Some_0,
            e.rect->Some_0,
            e.velocity->Some_0,
            e.player->Some_0,
            ts,
            ts.len() as int,
        );
        Ent { position: Some(res.0), velocity: Some(res.1), player: Some(res.2), ..e }
    } else {
        e
    }
}

/// The collision resolution system over the whole store: first the snapshot
/// of every non-player body, then the per-player correction against it.
pub open spec fn collide_sys(s: Seq<Ent>) -> Seq<Ent> {
    s.map_values(|e: Ent| resolve_ent(e, targets(s)))
}

/// One whole tick: input, velocity integration, position integration,
/// collision resolution, in that fixed order.
pub open spec fn tick_sys(s: Seq<Ent>, keys: InputState) -> Seq<Ent> {
    collide_sys(move_sys(integrate_sys(input_sys(s, keys))))
}

/// The half-open overlap test on two boxes given by corner and extent.
fn collision(
    r1x: i64,
    r1y: i64,
    r1w: i64,
    r1h: i64,
    r2x: i64,
    r2y: i64,
    r2w: i64,
    r2h: i64,
) -> (b: bool)
    ensures
        b == overlaps(
            (Position { x: r1x, y: r1y }),
            (Rect { width: r1w, height: r1h }),
            (Position { x: r2x, y: r2y }),
            (Rect { width: r2w, height: r2h }),
        ),
{
    (r1x as i128) < (r2x as i128) + (r2w as i128) && (r1x as i128) + (r1w as i128) > (r2x as i128)
        && (r1y as i128) < (r2y as i128) + (r2h as i128) && (r1y as i128) + (r1h as i128) > (r2y
        as i128)
}

/// The input system. For every entity with Velocity and Player, applies the
/// held directions' impulses in the fixed order Up, Down, Left, Right: a
/// held Up marks the player jumping and adds `JUMP_IMPULSE` of upward speed
/// every tick it stays held; Down, Left and Right each steer by
/// `STEER_IMPULSE`. All other entities are untouched.
pub fn input(world: &mut World, keys: &InputState)
    ensures
        final(world)@ == input_sys(old(world)@, *keys),
{
    let ghost s0 = world.ents@;
    let n = world.ents.len();
    let mut out: Vec<Ent> = Vec::new();
    let mut i: usize = 0;
    while i < n
        invariant
            world.ents@ == s0,
            n == s0.len(),
            i <= n,
            out@.len() == i,
            forall|j: int| 0 <= j < i ==> out@[j] == input_ent(s0[j], *keys),
        decreases n - i,
    {
        let e = world.ents[i];
        let e2 = match (e.velocity, e.player) {
            (Some(v), Some(pl)) => {
                let mut dx = v.dx;
                let mut dy = v.dy;
                let mut jumping = pl.jumping;
                if keys.up {
                    jumping = true;
                    dy = sat_sub(dy, JUMP_IMPULSE);
                }
                if keys.down {
                    dy = sat_add(dy, STEER_IMPULSE);
                }
                if keys.left {
                    dx = sat_sub(dx, STEER_IMPULSE);
                }
                if keys.right {
                    dx = sat_add(dx, STEER_IMPULSE);
                }
                Ent {
                    velocity: Some(Velocity { dx, dy }),
                    player: Some(Player { jumping }),
                    ..e
                }
            },
            _ => e,
        };
        out.push(e2);
        i += 1;
    }
    world.ents = out;
    proof {
        assert(world.ents@ =~= input_sys(s0, *keys));
    }
}

/// The velocity integration system. For every entity with a Velocity,
/// applies gravity, friction and the final clamp; after this pass every
/// velocity component lies in `[-VEL_MAX, VEL_MAX]`. Entities without a
/// Velocity (static geometry) are skipped.
pub fn update_velocity(world: &mut World)
    ensures
        final(world)@ == integrate_sys(old(world)@),
        forall|i: int|
            0 <= i < final(world)@.len() && (#[trigger] final(world)@[i]).velocity is Some
                ==> -VEL_MAX <= final(world)@[i].velocity->Some_0.dx <= VEL_MAX && -VEL_MAX
                <= final(world)@[i].velocity->Some_0.dy <= VEL_MAX,
{
    let ghost s0 = world.ents@;
    let n = world.ents.len();
    let mut out: Vec<Ent> = Vec::new();
    let mut i: usize = 0;
    while i < n
        invariant
            world.ents@ == s0,
            n == s0.len(),
            i <= n,
            out@.len() == i,
            forall|j: int| 0 <= j < i ==> out@[j] == integrate_ent(s0[j]),
        decreases n - i,
    {
        let e = world.ents[i];
        let e2 = match e.velocity {
            Some(v) => {
                // Gravity, with the same-frame clamp folded in.
                let dy = if v.dy >= VEL_MAX {
                    VEL_MAX
                } else {
                    clamp(v.dy + GRAVITY, -VEL_MAX, VEL_MAX)
                };
                // Friction towards zero, never crossing it.
                let dx_f = if v.dx > 0 {
                    clamp(v.dx - FRICTION, 0, VEL_MAX)
                } else if v.dx < 0 {
                    clamp(v.dx + FRICTION, -VEL_MAX, 0)
                } else {
                    0
                };
                // Final clamp; a no-op after the branches above.
                let dx = clamp(dx_f, -VEL_MAX, VEL_MAX);
                Ent { velocity: Some(Velocity { dx, dy }), ..e }
            },
            None => e,
        };
        out.push(e2);
        i += 1;
    }
    world.ents = out;
    proof {
        assert(world.ents@ =~= integrate_sys(s0));
    }
}

/// The position integration system. Every entity with both Position and
/// Velocity moves by one tick's displacement; pure, with no branching and no
/// clamping of the position itself (the sums saturate only at the ends of
/// the machine range).
pub fn apply_velocity(world: &mut World)
    ensures
        final(world)@ == move_sys(old(world)@),
{
    let ghost s0 = world.ents@;
    let n = world.ents.len();
    let mut out: Vec<Ent> = Vec::new();
    let mut i: usize = 0;
    while i < n
        invariant
            world.ents@ == s0,
            n == s0.len(),
            i <= n,
            out@.len() == i,
            forall|j: int| 0 <= j < i ==> out@[j] == move_ent(s0[j]),
        decreases n - i,
    {
        let e = world.ents[i];
        let e2 = match (e.position, e.velocity) {
            (Some(p), Some(v)) => {
                let y = sat_add(p.y, v.dy);
                let x = sat_add(p.x, v.dx);
                Ent { position: Some(Position { x, y }), ..e }
            },
            _ => e,
        };
        out.push(e2);
        i += 1;
    }
    world.ents = out;
    proof {
        assert(world.ents@ =~= move_sys(s0));
    }
}

/// The collision resolution system. First collects the snapshot of every
/// non-player body as of the post-integration state, then corrects every
/// player-tagged entity against each snapshot entry in order: an overlap
/// undoes this tick's vertical displacement, zeroes the vertical speed and
/// clears the jumping flag. Entities without the Player tag are never
/// corrected.
pub fn player_collision(world: &mut World)
    ensures
        final(world)@ == collide_sys(old(world)@),
{
    let ghost s0 = world.ents@;
    let n = world.ents.len();

    // Snapshot pass: collect (Position, Rect) of every non-player body.
    let mut ts: Vec<(Position, Rect)> = Vec::new();
    let mut i: usize = 0;
    while i < n
        invariant
            world.ents@ == s0,
            n == s0.len(),
            i <= n,
            ts@ == targets_prefix(s0, i as int),
        decreases n - i,
    {
        let e = world.ents[i];
        if e.player.is_none() {
            match (e.position, e.rect) {
                (Some(p), Some(r)) => {
                    ts.push((p, r));
                },
                _ => {},
            }
        }
        i += 1;
    }
    proof {
        assert(ts@ == targets(s0));
    }

    // Correction pass: only player-tagged entities are touched.
    let m = ts.len();
    let mut out: Vec<Ent> = Vec::new();
    let mut i: usize = 0;
    while i < n
        invariant
            world.ents@ == s0,
            n == s0.len(),
            i <= n,
            m == ts@.len(),
            ts@ == targets(s0),
            out@.len() == i,
            forall|j: int| 0 <= j < i ==> out@[j] == resolve_ent(s0[j], targets(s0)),
        decreases n - i,
    {
        let e = world.ents[i];
        let e2 = match (e.position, e.rect, e.velocity, e.player) {
            (Some(p0), Some(r0), Some(v0), Some(pl0)) => {
                let mut p = p0;
                let mut v = v0;
                let mut jumping = pl0.jumping;
                let mut k: usize = 0;
                while k < m
                    invariant
                        m == ts@.len(),
                        k <= m,
                        p == resolve_hits(p0, r0, v0, pl0, ts@, k as int).0,
                        v == resolve_hits(p0, r0, v0, pl0, ts@, k as int).1,
                        (Player { jumping }) == resolve_hits(p0, r0, v0, pl0, ts@, k as int).2,
                    decreases m - k,
                {
                    let t = ts[k];
                    if collision(p.x, p.y, r0.width, r0.height, t.0.x, t.0.y, t.1.width, t.1.height)
                    {
                        jumping = false;
                        p.y = sat_sub(p.y, v.dy);
                        v.dy = 0;
                    }
                    k += 1;
                }
                Ent {
                    position: Some(p),
                    velocity: Some(v),
                    player: Some(Player { jumping }),
                    ..e
                }
            },
            _ => e,
        };
        out.push(e2);
        i += 1;
    }
    world.ents = out;
    proof {
        assert(world.ents@ =~= collide_sys(s0));
    }
}

} // verus!
