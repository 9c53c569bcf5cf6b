//! The general guarantees of the pipeline, each proved once and for all
//! over the systems' pure transformers.

use vstd::prelude::*;

use crate::entities::Player;
use crate::entities::Position;
use crate::entities::Rect;
use crate::entities::Velocity;
use crate::input::InputState;
use crate::systems::FRICTION;
use crate::systems::GRAVITY;
use crate::systems::VEL_MAX;
use crate::systems::collide_sys;
use crate::systems::friction_step;
use crate::systems::gravity_step;
use crate::systems::input_sys;
use crate::systems::input_ent;
use crate::systems::integrate_ent;
use crate::systems::integrate_sys;
use crate::systems::is_target;
use crate::systems::move_ent;
use crate::systems::move_sys;
use crate::systems::overlaps;
use crate::systems::resolve_ent;
use crate::systems::resolve_hits;
use crate::systems::targets;
use crate::systems::targets_prefix;
use crate::systems::tick_sys;
use crate::world::Ent;

verus! {

/// Collision resolution never steers a player sideways and never speeds one
/// up: however many snapshot entries are tested, the horizontal speed is
/// kept and the vertical speed is either kept or zeroed.
pub proof fn lemma_resolve_hits_velocity(
    p: Position,
    r: Rect,
    v: Velocity,
    pl: Player,
    ts: Seq<(Position, Rect)>,
    n: int,
)
    ensures
        resolve_hits(p, r, v, pl, ts, n).1.dx == v.dx,
        resolve_hits(p, r, v, pl, ts, n).1.dy == v.dy || resolve_hits(p, r, v, pl, ts, n).1.dy
            == 0,
    decreases n,
{
    if n > 0 {
        lemma_resolve_hits_velocity(p, r, v, pl, ts, n - 1);
    }
}

/// Clamp invariant, per pass: right after velocity integration, both
/// components of every velocity in the store lie in `[-VEL_MAX, VEL_MAX]`,
/// whatever came before.
pub proof fn lemma_integration_velocity_clamped(s: Seq<Ent>)
    ensures
        forall|i: int|
            0 <= i < integrate_sys(s).len() && (#[trigger] integrate_sys(s)[i]).velocity is Some
                ==> -VEL_MAX <= integrate_sys(s)[i].velocity->Some_0.dx <= VEL_MAX && -VEL_MAX
                <= integrate_sys(s)[i].velocity->Some_0.dy <= VEL_MAX,
{
    assert forall|i: int|
        0 <= i < integrate_sys(s).len() && (#[trigger] integrate_sys(s)[i]).velocity
            is Some implies -VEL_MAX <= integrate_sys(s)[i].velocity->Some_0.dx <= VEL_MAX
        && -VEL_MAX <= integrate_sys(s)[i].velocity->Some_0.dy <= VEL_MAX by {
        assert(integrate_sys(s)[i] == integrate_ent(s[i]));
    }
}

/// Clamp invariant, per tick: at the end of every whole tick, both
/// components of every velocity in the store lie in `[-VEL_MAX, VEL_MAX]`.
/// Position integration never touches a velocity, and collision resolution
/// only keeps or zeroes one, so the bound of the integration pass survives
/// the rest of the tick.
pub proof fn lemma_tick_velocity_clamped(s: Seq<Ent>, keys: InputState)
    ensures
        forall|i: int|
            0 <= i < tick_sys(s, keys).len() && (#[trigger] tick_sys(s, keys)[i]).velocity is Some
                ==> -VEL_MAX <= tick_sys(s, keys)[i].velocity->Some_0.dx <= VEL_MAX && -VEL_MAX
                <= tick_sys(s, keys)[i].velocity->Some_0.dy <= VEL_MAX,
{
    let s1 = input_sys(s, keys);
    let s2 = integrate_sys(s1);
    let s3 = move_sys(s2);
    let s4 = collide_sys(s3);
    lemma_integration_velocity_clamped(s1);
    assert forall|i: int|
        0 <= i < s4.len() && (#[trigger] s4[i]).velocity is Some implies -VEL_MAX
        <= s4[i].velocity->Some_0.dx <= VEL_MAX && -VEL_MAX <= s4[i].velocity->Some_0.dy
        <= VEL_MAX by {
        assert(s4[i] == resolve_ent(s3[i], targets(s3)));
        assert(s3[i] == move_ent(s2[i]));
        assert(s2[i] == integrate_ent(s1[i]));
        if s3[i].position is Some && s3[i].rect is Some && s3[i].velocity is Some && s3[i].player
            is Some {
            lemma_resolve_hits_velocity(
                s3[i].position->Some_0,
                s3[i].rect->Some_0,
                s3[i].velocity->Some_0,
                s3[i].player->Some_0,
                targets(s3),
                targets(s3).len() as int,
            );
        }
    }
}

/// The vertical speed after `k` frames of velocity integration, starting
/// from `dy0`, when neither input nor a collision touches it in between.
pub open spec fn dy_after_frames(dy0: i64, k: nat) -> i64
    decreases k,
{
    if k == 0 {
        dy0
    } else {
        gravity_step(dy_after_frames(dy0, (k - 1) as nat))
    }
}

/// Gravity monotonicity: with no input and no collision, the vertical speed
/// grows by `GRAVITY` every frame until it is clamped at `VEL_MAX`, and
/// from then on holds exactly `VEL_MAX`. (For an entity the input system
/// and collision resolution leave alone — a passive one, or a player with
/// nothing held and nothing overlapping — `lemma_passive_entity_independent`
/// shows a tick moves its vertical speed by exactly one `gravity_step`.)
pub proof fn lemma_gravity_monotonic(dy0: i64, k: nat)
    requires
        -VEL_MAX <= dy0 <= VEL_MAX,
    ensures
        dy0 + k * GRAVITY <= VEL_MAX ==> dy_after_frames(dy0, k) == dy0 + k * GRAVITY,
        dy0 + k * GRAVITY > VEL_MAX ==> dy_after_frames(dy0, k) == VEL_MAX,
        dy_after_frames(dy0, k) <= dy_after_frames(dy0, k + 1),
    decreases k,
{
    if k > 0 {
        lemma_gravity_monotonic(dy0, (k - 1) as nat);
    }
}

/// The horizontal speed after `k` frames of velocity integration, starting
/// from `dx0`, with no further horizontal input in between.
pub open spec fn dx_after_frames(dx0: i64, k: nat) -> i64
    decreases k,
{
    if k == 0 {
        dx0
    } else {
        friction_step(dx_after_frames(dx0, (k - 1) as nat))
    }
}

/// Friction convergence: a rightward speed within the clamp bound, left
/// without further horizontal input, drops by exactly `FRICTION` every
/// frame until it reaches exactly zero, and friction alone never takes it
/// below zero. Starting from `VEL_MAX` it reaches zero after
/// `VEL_MAX / FRICTION` frames (thirty).
pub proof fn lemma_friction_convergence(dx0: i64, k: nat)
    requires
        0 <= dx0 <= VEL_MAX,
    ensures
        k * FRICTION <= dx0 ==> dx_after_frames(dx0, k) == dx0 - k * FRICTION,
        k * FRICTION >= dx0 ==> dx_after_frames(dx0, k) == 0,
        dx_after_frames(dx0, k) >= 0,
    decreases k,
{
    if k > 0 {
        lemma_friction_convergence(dx0, (k - 1) as nat);
    }
}

/// Multi-entity independence: an entity without the Player tag is never
/// corrected by collision resolution, even when it geometrically overlaps
/// static geometry; over a whole tick it sees exactly gravity, friction and
/// its own displacement, and nothing of the input.
pub proof fn lemma_passive_entity_independent(s: Seq<Ent>, keys: InputState, i: int)
    requires
        0 <= i < s.len(),
        s[i].player is None,
    ensures
        collide_sys(s)[i] == s[i],
        tick_sys(s, keys)[i] == move_ent(integrate_ent(s[i])),
{
    assert(collide_sys(s)[i] == resolve_ent(s[i], targets(s)));
    let s1 = input_sys(s, keys);
    let s2 = integrate_sys(s1);
    let s3 = move_sys(s2);
    assert(s1[i] == input_ent(s[i], keys));
    assert(s1[i] == s[i]);
    assert(s2[i] == integrate_ent(s[i]));
    assert(s3[i] == move_ent(integrate_ent(s[i])));
    assert(s3[i].player is None);
    assert(tick_sys(s, keys)[i] == resolve_ent(s3[i], targets(s3)));
}

/// A tick never creates, destroys or restructures entities: the count is
/// kept, every bounding box and Wall tag goes through unchanged (sizes are
/// set once at creation and immutable thereafter), and the presence or
/// absence of each component is stable.
pub proof fn lemma_tick_preserves_structure(s: Seq<Ent>, keys: InputState)
    ensures
        tick_sys(s, keys).len() == s.len(),
        forall|i: int|
            0 <= i < s.len() ==> (#[trigger] tick_sys(s, keys)[i]).rect == s[i].rect
                && tick_sys(s, keys)[i].wall == s[i].wall && (tick_sys(s, keys)[i].position
                is Some <==> s[i].position is Some) && (tick_sys(s, keys)[i].velocity is Some
                <==> s[i].velocity is Some) && (tick_sys(s, keys)[i].player is Some <==> s[i].player
                is Some),
{
    let s1 = input_sys(s, keys);
    let s2 = integrate_sys(s1);
    let s3 = move_sys(s2);
    assert forall|i: int|
        0 <= i < s.len() implies (#[trigger] tick_sys(s, keys)[i]).rect == s[i].rect && tick_sys(
        s,
        keys,
    )[i].wall == s[i].wall && (tick_sys(s, keys)[i].position is Some <==> s[i].position is Some)
        && (tick_sys(s, keys)[i].velocity is Some <==> s[i].velocity is Some) && (tick_sys(
        s,
        keys,
    )[i].player is Some <==> s[i].player is Some) by {
        assert(s1[i] == input_ent(s[i], keys));
        assert(s2[i] == integrate_ent(s1[i]));
        assert(s3[i] == move_ent(s2[i]));
        assert(tick_sys(s, keys)[i] == resolve_ent(s3[i], targets(s3)));
    }
}

/// Earlier snapshot prefixes are prefixes of later ones: collecting more
/// entities only appends entries.
proof fn lemma_targets_prefix_monotonic(s: Seq<Ent>, n1: int, n2: int)
    requires
        0 <= n1 <= n2 <= s.len(),
    ensures
        targets_prefix(s, n1).len() <= targets_prefix(s, n2).len(),
        forall|m: int|
            0 <= m < targets_prefix(s, n1).len() ==> #[trigger] targets_prefix(s, n2)[m]
                == targets_prefix(s, n1)[m],
    decreases n2,
{
    if n1 < n2 {
        lemma_targets_prefix_monotonic(s, n1, n2 - 1);
    }
}

/// Every non-player body with Position and Rect appears in the collision
/// snapshot, at the index counting such bodies before it.
proof fn lemma_target_in_snapshot(s: Seq<Ent>, j: int)
    requires
        0 <= j < s.len(),
        is_target(s[j]),
    ensures
        exists|m: int|
            0 <= m < targets(s).len() && #[trigger] targets(s)[m] == (
                s[j].position->Some_0,
                s[j].rect->Some_0,
            ),
{
    let pre = targets_prefix(s, j);
    assert(targets_prefix(s, j + 1) == pre.push((s[j].position->Some_0, s[j].rect->Some_0)));
    lemma_targets_prefix_monotonic(s, j + 1, s.len() as int);
    assert(targets(s)[pre.len() as int] == (s[j].position->Some_0, s[j].rect->Some_0));
}

/// Walking the snapshot leaves a player in one of exactly two states: the
/// incoming one, if nothing overlapped on the way, or the corrected one —
/// vertical displacement undone, vertical speed zero, jumping cleared — as
/// soon as anything overlapped; and once anything has, the corrected state
/// is where it stays.
proof fn lemma_resolve_hits_undo(
    p: Position,
    r: Rect,
    v: Velocity,
    pl: Player,
    ts: Seq<(Position, Rect)>,
    n: int,
)
    requires
        0 <= n <= ts.len(),
        i64::MIN <= p.y - v.dy <= i64::MAX,
    ensures
        resolve_hits(p, r, v, pl, ts, n) == (p, v, pl) || resolve_hits(p, r, v, pl, ts, n) == (
            (Position { x: p.x, y: (p.y - v.dy) as i64 }),
            (Velocity { dx: v.dx, dy: 0 }),
            (Player { jumping: false }),
        ),
        (exists|m: int| 0 <= m < n && overlaps(p, r, #[trigger] ts[m].0, ts[m].1)) ==> resolve_hits(
            p,
            r,
            v,
            pl,
            ts,
            n,
        ) == ((Position { x: p.x, y: (p.y - v.dy) as i64 }), (Velocity { dx: v.dx, dy: 0 }), (
            Player { jumping: false }
        )),
    decreases n,
{
    if n > 0 {
        lemma_resolve_hits_undo(p, r, v, pl, ts, n - 1);
        let prev = resolve_hits(p, r, v, pl, ts, n - 1);
        if exists|m: int| 0 <= m < n && overlaps(p, r, #[trigger] ts[m].0, ts[m].1) {
            let m = choose|m: int| 0 <= m < n && overlaps(p, r, #[trigger] ts[m].0, ts[m].1);
            if m < n - 1 {
                assert(exists|m2: int| 0 <= m2 < n - 1 && overlaps(p, r, #[trigger] ts[m2].0, ts[m2].1));
            }
        }
    }
}

/// No-op idempotence: with no direction held and a player resting exactly
/// on top of a static body — zero residual velocity, bottom edge flush with
/// the body's top, horizontally overlapping it — one tick returns the
/// player to exactly its position, with zero velocity and the jumping flag
/// cleared, and leaves the body untouched. The outcome satisfies these same
/// premises, so any number of further ticks leaves the position unchanged.
pub proof fn lemma_resting_player_fixed_point(s: Seq<Ent>, keys: InputState, i: int, j: int)
    requires
        keys.none_held(),
        0 <= i < s.len(),
        0 <= j < s.len(),
        s[i].position is Some,
        s[i].rect is Some,
        s[i].player is Some,
        s[i].velocity == Some(Velocity { dx: 0, dy: 0 }),
        s[i].position->Some_0.y < i64::MAX,
        s[i].rect->Some_0.height >= 1,
        is_target(s[j]),
        s[j].velocity is None,
        s[j].rect->Some_0.height >= 1,
        // horizontally overlapping the body:
        s[i].position->Some_0.x < s[j].position->Some_0.x + s[j].rect->Some_0.width,
        s[i].position->Some_0.x + s[i].rect->Some_0.width > s[j].position->Some_0.x,
        // resting exactly on its top edge:
        s[i].position->Some_0.y + s[i].rect->Some_0.height == s[j].position->Some_0.y,
    ensures
        tick_sys(s, keys)[i].position == s[i].position,
        tick_sys(s, keys)[i].velocity == Some(Velocity { dx: 0, dy: 0 }),
        tick_sys(s, keys)[i].player == Some(Player { jumping: false }),
        tick_sys(s, keys)[i].rect == s[i].rect,
        tick_sys(s, keys)[i].wall == s[i].wall,
        tick_sys(s, keys)[j] == s[j],
        tick_sys(s, keys).len() == s.len(),
{
    let p = s[i].position->Some_0;
    let r = s[i].rect->Some_0;
    let q = s[j].position->Some_0;
    let w = s[j].rect->Some_0;

    let s1 = input_sys(s, keys);
    let s2 = integrate_sys(s1);
    let s3 = move_sys(s2);

    // Nothing is held, so the input system leaves entity i alone.
    assert(s1[i] == input_ent(s[i], keys));
    assert(s1[i] == s[i]);

    // Integration: gravity turns the resting velocity into (0, GRAVITY).
    assert(s2[i] == integrate_ent(s1[i]));
    assert(s2[i].velocity == Some(Velocity { dx: 0, dy: GRAVITY }));

    // The player sinks by GRAVITY, exactly.
    assert(s3[i] == move_ent(s2[i]));
    let p1 = Position { x: p.x, y: (p.y + GRAVITY) as i64 };
    assert(s3[i].position == Some(p1));
    assert(s3[i].rect == s[i].rect);
    assert(s3[i].wall == s[i].wall);
    assert(s3[i].player == s[i].player);

    // The static body goes through the tick untouched.
    assert(s1[j] == input_ent(s[j], keys));
    assert(s2[j] == integrate_ent(s1[j]));
    assert(s3[j] == move_ent(s2[j]));
    assert(s3[j] == s[j]);
    assert(tick_sys(s, keys)[j] == resolve_ent(s3[j], targets(s3)));

    // The sunken player overlaps the body it was resting on, which stands
    // in the snapshot; so the correction fires and undoes the sinking.
    lemma_target_in_snapshot(s3, j);
    let ts = targets(s3);
    let m = choose|m: int| 0 <= m < ts.len() && #[trigger] ts[m] == (q, w);
    assert(overlaps(p1, r, ts[m].0, ts[m].1));
    assert(tick_sys(s, keys)[i] == resolve_ent(s3[i], ts));
    lemma_resolve_hits_undo(p1, r, Velocity { dx: 0, dy: GRAVITY }, s3[i].player->Some_0, ts, ts.len() as int);
    assert(resolve_hits(p1, r, Velocity { dx: 0, dy: GRAVITY }, s3[i].player->Some_0, ts, ts.len() as int)
        == ((Position { x: p.x, y: p.y as i64 }), (Velocity { dx: 0, dy: 0 }), (Player { jumping: false })));
}

/// The world after `k` whole ticks under one unchanging input state.
pub open spec fn ticks_sys(s: Seq<Ent>, keys: InputState, k: nat) -> Seq<Ent>
    decreases k,
{
    if k == 0 {
        s
    } else {
        tick_sys(ticks_sys(s, keys, (k - 1) as nat), keys)
    }
}

/// No-op idempotence over any horizon: under the premises of
/// `lemma_resting_player_fixed_point`, every number of repeated ticks
/// leaves the resting player's position exactly where it started and the
/// static body untouched.
pub proof fn lemma_resting_player_stays(s: Seq<Ent>, keys: InputState, i: int, j: int, k: nat)
    requires
        keys.none_held(),
        0 <= i < s.len(),
        0 <= j < s.len(),
        s[i].position is Some,
        s[i].rect is Some,
        s[i].player is Some,
        s[i].velocity == Some(Velocity { dx: 0, dy: 0 }),
        s[i].position->Some_0.y < i64::MAX,
        s[i].rect->Some_0.height >= 1,
        is_target(s[j]),
        s[j].velocity is None,
        s[j].rect->Some_0.height >= 1,
        s[i].position->Some_0.x < s[j].position->Some_0.x + s[j].rect->Some_0.width,
        s[i].position->Some_0.x + s[i].rect->Some_0.width > s[j].position->Some_0.x,
        s[i].position->Some_0.y + s[i].rect->Some_0.height == s[j].position->Some_0.y,
    ensures
        ticks_sys(s, keys, k)[i].position == s[i].position,
        ticks_sys(s, keys, k)[i].velocity is Some,
        ticks_sys(s, keys, k)[i].rect == s[i].rect,
        ticks_sys(s, keys, k)[i].player is Some,
        k > 0 ==> ticks_sys(s, keys, k)[i].velocity == Some(Velocity { dx: 0, dy: 0 }),
        k > 0 ==> ticks_sys(s, keys, k)[i].player == Some(Player { jumping: false }),
        ticks_sys(s, keys, k)[j] == s[j],
        ticks_sys(s, keys, k).len() == s.len(),
    decreases k,
{
    if k > 0 {
        lemma_resting_player_stays(s, keys, i, j, (k - 1) as nat);
        let sk = ticks_sys(s, keys, (k - 1) as nat);
        lemma_resting_player_fixed_point(sk, keys, i, j);
    }
}

} // verus!
