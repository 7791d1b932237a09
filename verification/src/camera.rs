use vstd::prelude::*;
use vstd::arithmetic::div_mod::{lemma_div_denominator, lemma_div_multiples_vanish};

verus! {

/// Radius of the camera's orbit around the world origin, in milli-units.
pub const ORBIT_RADIUS_MILLI: u64 = 10000;

/// Height the orbiting camera keeps above the ground plane, in milli-units.
pub const ORBIT_HEIGHT_MILLI: i64 = 3000;

/// Angular speed of the orbit, in milli-radians per second (0.4 rad/s).
pub const ORBIT_SPEED_MILLIRAD_PER_S: u64 = 400;

/// Where the orbiting camera stands, as a polar description: the Cartesian
/// position is (radius·sin(angle), height, radius·cos(angle)), and the camera
/// looks at the world origin. Milli-units and milli-radians.
#[derive(Clone, Copy, PartialEq, Eq, Structural)]
pub struct OrbitPose {
    pub angle_millirad: u64,
    pub radius_milli: u64,
    pub height_milli: i64,
}

/// The orbit angle after `elapsed_ms` of run time, in milli-radians: the
/// angular speed times the elapsed seconds.
pub open spec fn orbit_angle_millirad(elapsed_ms: int) -> int {
    (elapsed_ms * ORBIT_SPEED_MILLIRAD_PER_S) / 1000
}

/// One frame of the orbiting camera: recomputes the camera's pose as a pure
/// function of the elapsed run time. At zero elapsed time the angle is zero,
/// so the camera stands at (0, 3, 10) units, and the pose repeats whenever
/// the angle advances by a full turn.
pub fn rotate_camera_system(elapsed_ms: u64) -> (pose: OrbitPose)
    requires
        elapsed_ms <= u64::MAX / 2,
    ensures
        pose.angle_millirad as int == orbit_angle_millirad(elapsed_ms as int),
        pose.radius_milli == ORBIT_RADIUS_MILLI,
        pose.height_milli == ORBIT_HEIGHT_MILLI,
{
    let angle = elapsed_ms * 2 / 5;
    proof {
        let e = elapsed_ms as int;
        lemma_div_denominator(e * 400, 200, 5);
        lemma_div_multiples_vanish(e * 2, 200);
        assert(e * 400 == 200 * (e * 2));
        assert((e * 400) / 200 == e * 2);
    }
    OrbitPose {
        angle_millirad: angle,
        radius_milli: ORBIT_RADIUS_MILLI,
        height_milli: ORBIT_HEIGHT_MILLI,
    }
}

} // verus!
