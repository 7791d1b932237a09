use vstd::prelude::*;
use rand::Rng;

verus! {

/// How many trees the startup scattering places.
pub const TREE_COUNT: usize = 80;

/// Inner edge of the ring the trees are scattered over, in milli-units.
pub const TREE_RADIUS_MIN_MILLI: u64 = 4000;

/// Outer edge (exclusive) of the scattering ring, in milli-units.
pub const TREE_RADIUS_MAX_MILLI: u64 = 15000;

/// One full turn, in milli-radians, rounded down so that every sampled angle
/// stays below 2π.
pub const FULL_TURN_MILLIRAD: u64 = 6283;

/// Number of sides of the die each model draw rolls.
pub const MODEL_DIE_SIDES: u64 = 10;

/// A model draw above this value switches away from the tall model.
pub const MODEL_SWITCH_ABOVE: u64 = 8;

/// Uniform scale applied to every placed tree, in milli-units.
pub const TREE_SCALE_MILLI: u64 = 1500;

/// Half-height of the cylinder collider attached to each tree, milli-units.
pub const TREE_COLLIDER_HALF_HEIGHT_MILLI: u64 = 5000;

/// Radius of the cylinder collider attached to each tree, milli-units.
pub const TREE_COLLIDER_RADIUS_MILLI: u64 = 200;

#[verifier::external_type_specification]
#[verifier::external_body]
pub struct ExThreadRng(rand::rngs::ThreadRng);

/// Relies on rand::thread_rng: a handle to the thread-local random generator.
/// Nothing is promised of the values it will yield.
#[verifier::external_body]
fn fresh_rng() -> rand::rngs::ThreadRng {
    rand::thread_rng()
}

/// Relies on rand::Rng::gen_range on a half-open u64 range: the sampled value
/// is uniform in the range, so it lies at or above `lo` and below `hi`.
/// rand panics on an empty range; such ranges are excluded here.
#[verifier::external_body]
fn gen_range_u64(rng: &mut rand::rngs::ThreadRng, lo: u64, hi: u64) -> (r: u64)
    requires
        lo < hi,
    ensures
        lo <= r < hi,
{
    rng.gen_range(lo..hi)
}

/// Which of the three tree models a placement uses.
#[derive(Clone, Copy, Debug, PartialEq, Eq, Structural)]
pub enum TreeKind {
    Tall,
    Plateau,
    Thin,
}

/// One tree placement, in polar coordinates about the world origin: the
/// Cartesian ground position is (radius·cos(angle), 0, radius·sin(angle)),
/// so the tree's distance from the origin is exactly its radius.
/// Milli-units and milli-radians.
#[derive(Clone, Copy, PartialEq, Eq, Structural)]
pub struct TreePlacement {
    pub radius_milli: u64,
    pub angle_millirad: u64,
    pub kind: TreeKind,
}

impl TreePlacement {
    /// A placement the spawner may produce: radius within the scattering
    /// ring, angle within one full turn.
    pub open spec fn valid(self) -> bool {
        &&& TREE_RADIUS_MIN_MILLI <= self.radius_milli < TREE_RADIUS_MAX_MILLI
        &&& self.angle_millirad < FULL_TURN_MILLIRAD
    }
}

/// The model two independent ten-sided draws pick: a first draw of nine picks
/// the plateau model, else a second draw of nine picks the thin model, else
/// the tall model stands.
pub open spec fn picked_kind(first_draw: int, second_draw: int) -> TreeKind {
    if first_draw > MODEL_SWITCH_ABOVE {
        TreeKind::Plateau
    } else if second_draw > MODEL_SWITCH_ABOVE {
        TreeKind::Thin
    } else {
        TreeKind::Tall
    }
}

/// Decides which tree model a placement gets from its two draws. The draws
/// are deliberately independent, as the running game samples them, so the
/// three models do not split the probability mass three ways: the tall model
/// keeps roughly four fifths, and the plateau model outweighs the thin one.
pub fn pick_tree_kind(first_draw: u64, second_draw: u64) -> (kind: TreeKind)
    ensures
        kind == picked_kind(first_draw as int, second_draw as int),
{
    if first_draw > MODEL_SWITCH_ABOVE {
        TreeKind::Plateau
    } else if second_draw > MODEL_SWITCH_ABOVE {
        TreeKind::Thin
    } else {
        TreeKind::Tall
    }
}

/// Startup tree scattering: exactly eighty placements, each with a radius
/// sampled uniformly from [4, 15) units and an angle sampled uniformly from
/// [0, 2π), and a model picked by two weighted draws. Whatever the generator
/// yields, every placement is valid: every tree stands within the ring.
pub fn spawn_trees() -> (trees: Vec<TreePlacement>)
    ensures
        trees@.len() == TREE_COUNT,
        forall|i: int| 0 <= i < trees@.len() ==> (#[trigger] trees@[i]).valid(),
{
    let mut rng = fresh_rng();
    let mut trees: Vec<TreePlacement> = Vec::new();
    let mut placed: usize = 0;
    while placed < TREE_COUNT
        invariant
            placed <= TREE_COUNT,
            trees@.len() == placed,
            forall|i: int| 0 <= i < trees@.len() ==> (#[trigger] trees@[i]).valid(),
        decreases TREE_COUNT - placed,
    {
        let radius = gen_range_u64(&mut rng, TREE_RADIUS_MIN_MILLI, TREE_RADIUS_MAX_MILLI);
        let angle = gen_range_u64(&mut rng, 0, FULL_TURN_MILLIRAD);
        let first_draw = gen_range_u64(&mut rng, 0, MODEL_DIE_SIDES);
        let second_draw = gen_range_u64(&mut rng, 0, MODEL_DIE_SIDES);
        let kind = pick_tree_kind(first_draw, second_draw);
        trees.push(TreePlacement { radius_milli: radius, angle_millirad: angle, kind });
        placed = placed + 1;
    }
    trees
}

} // verus!
