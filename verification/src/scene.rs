use vstd::prelude::*;
use crate::player::PlaneVelocity;

verus! {

/// Half-extent of the square ground plane along x and z, in milli-units
/// (the plane is 30 units across).
pub const GROUND_HALF_EXTENT_MILLI: u64 = 15000;

/// Half-thickness of the ground plane's collider, in milli-units.
pub const GROUND_HALF_THICKNESS_MILLI: u64 = 10;

/// Height the player capsule is dropped from at startup, in milli-units.
pub const PLAYER_SPAWN_HEIGHT_MILLI: i64 = 5000;

/// Half-height of the player's cylinder collider, in milli-units.
pub const PLAYER_COLLIDER_HALF_HEIGHT_MILLI: u64 = 500;

/// Radius of the player's cylinder collider, in milli-units.
pub const PLAYER_COLLIDER_RADIUS_MILLI: u64 = 250;

/// Intensity of the point light, in milli-candela of the engine's unit.
pub const LIGHT_INTENSITY_MILLI: u64 = 1500000;

/// The camera's vertical field of view, in milli-radians (π/3).
pub const CAMERA_FOV_MILLIRAD: u64 = 1047;

/// A position in the world, in milli-units.
#[derive(Clone, Copy, PartialEq, Eq, Structural)]
pub struct Vec3Milli {
    pub x: i64,
    pub y: i64,
    pub z: i64,
}

/// Collision geometry attached to an entity, in milli-units.
#[derive(Clone, Copy, PartialEq, Eq, Structural)]
pub enum ColliderShape {
    /// Half-extents along the three axes.
    Cuboid { half_x_milli: u64, half_y_milli: u64, half_z_milli: u64 },
    /// Half-height along y, and radius.
    Cylinder { half_height_milli: u64, radius_milli: u64 },
}

/// One entity the startup scene asks the engine to create.
#[derive(Clone, Copy, PartialEq, Eq, Structural)]
pub enum SceneEntity {
    /// The static ground plane.
    Ground { position: Vec3Milli, collider: ColliderShape },
    /// The player's capsule: a dynamic rigid body driven by its velocity,
    /// with rotation locked about all axes so it cannot tip over.
    PlayerBody {
        position: Vec3Milli,
        collider: ColliderShape,
        velocity: PlaneVelocity,
        rotation_locked: bool,
    },
    /// The point light.
    Light { position: Vec3Milli, intensity_milli: u64, shadows_enabled: bool },
    /// The camera, looking at `look_at` with the given field of view.
    Camera { position: Vec3Milli, look_at: Vec3Milli, fov_millirad: u64 },
}

/// The four entities the startup scene consists of, in the order they are
/// submitted to the engine.
pub open spec fn setup_scene() -> Seq<SceneEntity> {
    seq![
        SceneEntity::Ground {
            position: Vec3Milli { x: 0, y: 0, z: 0 },
            collider: ColliderShape::Cuboid {
                half_x_milli: GROUND_HALF_EXTENT_MILLI,
                half_y_milli: GROUND_HALF_THICKNESS_MILLI,
                half_z_milli: GROUND_HALF_EXTENT_MILLI,
            },
        },
        SceneEntity::PlayerBody {
            position: Vec3Milli { x: 0, y: PLAYER_SPAWN_HEIGHT_MILLI, z: 0 },
            collider: ColliderShape::Cylinder {
                half_height_milli: PLAYER_COLLIDER_HALF_HEIGHT_MILLI,
                radius_milli: PLAYER_COLLIDER_RADIUS_MILLI,
            },
            velocity: PlaneVelocity { x_milli: 0, z_milli: 0 },
            rotation_locked: true,
        },
        SceneEntity::Light {
            position: Vec3Milli { x: 2000, y: 8000, z: -2000i64 },
            intensity_milli: LIGHT_INTENSITY_MILLI,
            shadows_enabled: true,
        },
        SceneEntity::Camera {
            position: Vec3Milli { x: 0, y: 6000, z: 8000 },
            look_at: Vec3Milli { x: 0, y: 0, z: 0 },
            fov_millirad: CAMERA_FOV_MILLIRAD,
        },
    ]
}

/// One-time scene construction: describes the ground plane, the player body,
/// the point light and the camera, exactly as the engine is to create them.
/// Construction is unconditional; calling it twice would describe a duplicate
/// scene, so the caller invokes it once at startup.
pub fn setup() -> (scene: Vec<SceneEntity>)
    ensures
        scene@ == setup_scene(),
{
    let ground = SceneEntity::Ground {
        position: Vec3Milli { x: 0, y: 0, z: 0 },
        collider: ColliderShape::Cuboid {
            half_x_milli: GROUND_HALF_EXTENT_MILLI,
            half_y_milli: GROUND_HALF_THICKNESS_MILLI,
            half_z_milli: GROUND_HALF_EXTENT_MILLI,
        },
    };
    let player = SceneEntity::PlayerBody {
        position: Vec3Milli { x: 0, y: PLAYER_SPAWN_HEIGHT_MILLI, z: 0 },
        collider: ColliderShape::Cylinder {
            half_height_milli: PLAYER_COLLIDER_HALF_HEIGHT_MILLI,
            radius_milli: PLAYER_COLLIDER_RADIUS_MILLI,
        },
        velocity: PlaneVelocity::zero(),
        rotation_locked: true,
    };
    let light = SceneEntity::Light {
        position: Vec3Milli { x: 2000, y: 8000, z: -2000 },
        intensity_milli: LIGHT_INTENSITY_MILLI,
        shadows_enabled: true,
    };
    let camera = SceneEntity::Camera {
        position: Vec3Milli { x: 0, y: 6000, z: 8000 },
        look_at: Vec3Milli { x: 0, y: 0, z: 0 },
        fov_millirad: CAMERA_FOV_MILLIRAD,
    };
    let mut scene: Vec<SceneEntity> = Vec::new();
    scene.push(ground);
    scene.push(player);
    scene.push(light);
    scene.push(camera);
    proof {
        assert(scene@ =~= setup_scene());
    }
    scene
}

/// How many entities of `s` satisfy `pred`.
pub open spec fn count_of(s: Seq<SceneEntity>, pred: spec_fn(SceneEntity) -> bool) -> int
    decreases s.len(),
{
    if s.len() == 0 {
        0
    } else {
        (if pred(s[0]) {
            1int
        } else {
            0int
        }) + count_of(s.drop_first(), pred)
    }
}

/// Before the first frame has run, the startup scene holds exactly one
/// ground entity, one player entity, one light entity and one camera entity.
pub proof fn lemma_setup_scene_singletons()
    ensures
        count_of(setup_scene(), |e: SceneEntity| e is Ground) == 1,
        count_of(setup_scene(), |e: SceneEntity| e is PlayerBody) == 1,
        count_of(setup_scene(), |e: SceneEntity| e is Light) == 1,
        count_of(setup_scene(), |e: SceneEntity| e is Camera) == 1,
{
    reveal_with_fuel(count_of, 6);
}

} // verus!
