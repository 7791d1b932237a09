use vstd::prelude::*;
use vstd::arithmetic::div_mod::{
    lemma_div_is_ordered, lemma_div_multiples_vanish, lemma_div_pos_is_pos,
};
use vstd::arithmetic::mul::{
    lemma_mul_inequality, lemma_mul_nonnegative, lemma_mul_upper_bound,
};
use vstd::math::abs;

verus! {

/// The player's movement speed while a directional key is held, in
/// milli-units per second.
pub const MOVE_SPEED_MILLI: i64 = 3000;

/// Largest velocity component the controller accepts, in milli-units per
/// second: keeps every fixed-point product within 64 bits.
pub const VELOCITY_LIMIT_MILLI: i64 = 1000000000;

/// Largest frame delta the controller accepts, in milliseconds (one hour):
/// keeps every fixed-point product within 64 bits.
pub const FRAME_DELTA_LIMIT_MS: u64 = 3600000;

/// The polled state of the four directional keys the controller reads.
#[derive(Clone, Copy, PartialEq, Eq, Structural)]
pub struct KeyState {
    pub left: bool,
    pub right: bool,
    pub up: bool,
    pub down: bool,
}

/// The player's planar linear velocity, in milli-units per second. The y
/// component never moves the player, so only the ground-plane axes are kept.
#[derive(Clone, Copy, PartialEq, Eq, Structural)]
pub struct PlaneVelocity {
    pub x_milli: i64,
    pub z_milli: i64,
}

impl PlaneVelocity {
    /// Both components within the controller's fixed-point bound.
    pub open spec fn bounded(self) -> bool {
        &&& -VELOCITY_LIMIT_MILLI <= self.x_milli <= VELOCITY_LIMIT_MILLI
        &&& -VELOCITY_LIMIT_MILLI <= self.z_milli <= VELOCITY_LIMIT_MILLI
    }

    /// The velocity a freshly spawned player body starts with.
    pub fn zero() -> (v: Self)
        ensures
            v.x_milli == 0,
            v.z_milli == 0,
    {
        PlaneVelocity { x_milli: 0, z_milli: 0 }
    }
}

/// Per-frame damping of one axis when neither of its keys is held: the
/// velocity is multiplied by half the frame delta in seconds, which in
/// milli-units is `v * delta_ms / 2000`, rounded toward zero. The factor
/// deliberately scales with the frame delta, as the running game does.
pub open spec fn decay_milli(v: int, delta_ms: int) -> int {
    if v >= 0 {
        (v * delta_ms) / 2000
    } else {
        -(((-v) * delta_ms) / 2000)
    }
}

/// What one frame of the controller does to one axis: the key toward the
/// negative direction wins, then the key toward the positive direction, and
/// with neither held the velocity decays toward zero.
pub open spec fn axis_step(neg_held: bool, pos_held: bool, v: int, delta_ms: int) -> int {
    if neg_held {
        -MOVE_SPEED_MILLI as int
    } else if pos_held {
        MOVE_SPEED_MILLI as int
    } else {
        decay_milli(v, delta_ms)
    }
}

/// The damping step on one axis, in executable form.
fn decay_axis(v: i64, delta_ms: u64) -> (r: i64)
    requires
        -VELOCITY_LIMIT_MILLI <= v <= VELOCITY_LIMIT_MILLI,
        delta_ms <= FRAME_DELTA_LIMIT_MS,
    ensures
        r as int == decay_milli(v as int, delta_ms as int),
{
    proof {
        lemma_mul_upper_bound(
            abs(v as int) as int,
            VELOCITY_LIMIT_MILLI as int,
            delta_ms as int,
            FRAME_DELTA_LIMIT_MS as int,
        );
    }
    let mag: u64 = if v >= 0 {
        v as u64
    } else {
        (-v) as u64
    };
    let scaled: u64 = (mag * delta_ms) / 2000;
    if v >= 0 {
        scaled as i64
    } else {
        -(scaled as i64)
    }
}

/// One frame of the player controller: each axis is driven to full speed
/// toward a held key (left before right, up before down), and decays toward
/// zero while no key on that axis is held. Left and up point toward the
/// negative ends of their axes.
pub fn player_move_system(keys: KeyState, velocity: &mut PlaneVelocity, delta_ms: u64)
    requires
        old(velocity).bounded(),
        delta_ms <= FRAME_DELTA_LIMIT_MS,
    ensures
        final(velocity).x_milli as int == axis_step(
            keys.left,
            keys.right,
            old(velocity).x_milli as int,
            delta_ms as int,
        ),
        final(velocity).z_milli as int == axis_step(
            keys.up,
            keys.down,
            old(velocity).z_milli as int,
            delta_ms as int,
        ),
{
    if keys.left {
        velocity.x_milli = -MOVE_SPEED_MILLI;
    } else if keys.right {
        velocity.x_milli = MOVE_SPEED_MILLI;
    } else {
        velocity.x_milli = decay_axis(velocity.x_milli, delta_ms);
    }
    if keys.up {
        velocity.z_milli = -MOVE_SPEED_MILLI;
    } else if keys.down {
        velocity.z_milli = MOVE_SPEED_MILLI;
    } else {
        velocity.z_milli = decay_axis(velocity.z_milli, delta_ms);
    }
}

/// With no key held on an axis and a frame delta of at most two seconds, one
/// frame of damping never increases the velocity's magnitude and never flips
/// its sign: the velocity converges toward zero. (At a frame delta beyond two
/// seconds the damping factor exceeds one and the magnitude grows; such
/// deltas are excluded here.)
pub proof fn lemma_decay_never_increases_magnitude(v: int, delta_ms: int)
    requires
        0 <= delta_ms <= 2000,
    ensures
        abs(decay_milli(v, delta_ms)) <= abs(v),
        v >= 0 ==> 0 <= decay_milli(v, delta_ms),
        v <= 0 ==> decay_milli(v, delta_ms) <= 0,
{
    let m = abs(v) as int;
    lemma_mul_nonnegative(m, delta_ms);
    lemma_div_pos_is_pos(m * delta_ms, 2000);
    lemma_mul_inequality(delta_ms, 2000, m);
    lemma_div_is_ordered(m * delta_ms, m * 2000, 2000);
    lemma_div_multiples_vanish(m, 2000);
    assert(m * 2000 == 2000 * m);
    assert((m * delta_ms) / 2000 <= m);
}

/// Whenever a directional key on an axis is held, one frame drives that
/// axis's velocity to exactly full speed in the key's direction, whatever
/// the velocity was before.
pub proof fn lemma_held_key_gives_full_speed(
    neg_held: bool,
    pos_held: bool,
    v: int,
    delta_ms: int,
)
    requires
        neg_held || pos_held,
    ensures
        neg_held ==> axis_step(neg_held, pos_held, v, delta_ms) == -MOVE_SPEED_MILLI,
        !neg_held && pos_held ==> axis_step(neg_held, pos_held, v, delta_ms)
            == MOVE_SPEED_MILLI,
        abs(axis_step(neg_held, pos_held, v, delta_ms)) == MOVE_SPEED_MILLI,
{
}

} // verus!
