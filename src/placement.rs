use rand::Rng;
use vstd::prelude::*;

verus! {

/// Distance budget between the player and a freshly placed enemy, in world units.
pub const SPAWN_DISTANCE: u32 = 1000;

/// A point of the world, in whole world units.
#[derive(Clone, Copy, Debug, PartialEq, Eq, Structural)]
pub struct WorldPos {
    pub x: i32,
    pub y: i32,
}

/// The symmetric world rectangle `[-half_width, half_width] x [-half_height, half_height]`.
#[derive(Clone, Copy, Debug, PartialEq, Eq, Structural)]
pub struct WorldBounds {
    pub half_width: i32,
    pub half_height: i32,
}

/// The random part of one placement: how the distance budget is split
/// between the two axes, and whether both offsets point the negative way.
#[derive(Clone, Copy, Debug, PartialEq, Eq, Structural)]
pub struct PlacementDraw {
    pub split: u32,
    pub flip: bool,
}

impl WorldBounds {
    pub open spec fn wf(self) -> bool {
        self.half_width >= 0 && self.half_height >= 0
    }

    pub open spec fn contains(self, p: WorldPos) -> bool {
        -self.half_width <= p.x <= self.half_width && -self.half_height <= p.y
            <= self.half_height
    }
}

impl PlacementDraw {
    /// A draw that a random source may produce for the given budget:
    /// the split lies in `[0, distance)`, or is 0 when the budget is 0.
    pub open spec fn valid_for(self, distance: u32) -> bool {
        self.split < distance || (distance == 0 && self.split == 0)
    }
}

pub open spec fn clamp_spec(v: int, bound: int) -> int {
    if v < -bound {
        -bound
    } else if v > bound {
        bound
    } else {
        v
    }
}

pub open spec fn abs_spec(v: int) -> int {
    if v < 0 {
        -v
    } else {
        v
    }
}

/// The offset from the player before clamping: `split` on the x axis and
/// the rest of the budget on the y axis, both negated when `flip` is set.
pub open spec fn offset_spec(distance: u32, draw: PlacementDraw) -> (int, int) {
    let rx = draw.split as int;
    let ry = distance as int - draw.split as int;
    if draw.flip {
        (-rx, -ry)
    } else {
        (rx, ry)
    }
}

/// The placed point: player position plus offset, each axis clamped to the bounds.
pub open spec fn place_spec(
    player: WorldPos,
    distance: u32,
    bounds: WorldBounds,
    draw: PlacementDraw,
) -> (int, int) {
    let off = offset_spec(distance, draw);
    (
        clamp_spec(player.x + off.0, bounds.half_width as int),
        clamp_spec(player.y + off.1, bounds.half_height as int),
    )
}

pub open spec fn placed_at(
    p: WorldPos,
    player: WorldPos,
    distance: u32,
    bounds: WorldBounds,
    draw: PlacementDraw,
) -> bool {
    let q = place_spec(player, distance, bounds, draw);
    p.x as int == q.0 && p.y as int == q.1
}

fn clamp_axis(v: i64, bound: i32) -> (r: i32)
    requires
        bound >= 0,
    ensures
        r as int == clamp_spec(v as int, bound as int),
{
    if v < -(bound as i64) {
        -bound
    } else if v > bound as i64 {
        bound
    } else {
        v as i32
    }
}

/// Places a point for the given draw: the offset is added to the player's
/// position and each axis is clamped to the world bounds.
pub fn place_with(player: WorldPos, spawn_distance: u32, bounds: WorldBounds, draw: PlacementDraw) -> (r:
    WorldPos)
    requires
        bounds.wf(),
        draw.split <= spawn_distance,
    ensures
        placed_at(r, player, spawn_distance, bounds, draw),
        bounds.contains(r),
{
    let rx: i64 = draw.split as i64;
    let ry: i64 = spawn_distance as i64 - draw.split as i64;
    let (ox, oy) = if draw.flip {
        (-rx, -ry)
    } else {
        (rx, ry)
    };
    let x = clamp_axis(player.x as i64 + ox, bounds.half_width);
    let y = clamp_axis(player.y as i64 + oy, bounds.half_height);
    WorldPos { x, y }
}

/// Relies on rand's `thread_rng` and `Rng::gen_range`: a value of the
/// half-open range `0..bound`, which must not be empty.
#[verifier::external_body]
fn random_below(bound: u32) -> (r: u32)
    requires
        bound > 0,
    ensures
        r < bound,
{
    rand::thread_rng().gen_range(0..bound)
}

/// Relies on rand's `thread_rng` and `Rng::gen_ratio`: a fair coin, `true`
/// with chance 1 in 2.
#[verifier::external_body]
fn random_coin() -> (r: bool) {
    rand::thread_rng().gen_ratio(1, 2)
}

/// Draws a split of the budget uniformly from `[0, spawn_distance)` and an
/// independent fair coin for the shared sign.
pub fn random_draw(spawn_distance: u32) -> (r: PlacementDraw)
    ensures
        r.valid_for(spawn_distance),
{
    let split: u32 = if spawn_distance > 0 {
        random_below(spawn_distance)
    } else {
        0
    };
    let flip = random_coin();
    PlacementDraw { split, flip }
}

/// Places a point at a random split of the distance budget around the
/// player, on one of the two diagonal quadrants, clamped to the world.
pub fn place(player: WorldPos, spawn_distance: u32, bounds: WorldBounds) -> (r: WorldPos)
    requires
        bounds.wf(),
    ensures
        bounds.contains(r),
        exists|d: PlacementDraw|
            d.valid_for(spawn_distance) && #[trigger] placed_at(r, player, spawn_distance, bounds, d),
{
    let draw = random_draw(spawn_distance);
    let r = place_with(player, spawn_distance, bounds, draw);
    assert(placed_at(r, player, spawn_distance, bounds, draw));
    r
}

/// Whatever the player's position and the draw, a placed point lies inside
/// well-formed world bounds.
pub proof fn lemma_place_in_bounds(
    player: WorldPos,
    spawn_distance: u32,
    bounds: WorldBounds,
    draw: PlacementDraw,
)
    requires
        bounds.wf(),
    ensures
        ({
            let q = place_spec(player, spawn_distance, bounds, draw);
            -bounds.half_width <= q.0 <= bounds.half_width && -bounds.half_height <= q.1
                <= bounds.half_height
        }),
{
}

/// For every draw a random source can produce, the offset before clamping
/// spends the whole budget: `|ox| + |oy| == spawn_distance`, and both
/// offsets share one sign.
pub proof fn lemma_offset_budget(spawn_distance: u32, draw: PlacementDraw)
    requires
        draw.valid_for(spawn_distance),
    ensures
        abs_spec(offset_spec(spawn_distance, draw).0) + abs_spec(offset_spec(spawn_distance, draw).1)
            == spawn_distance,
        (offset_spec(spawn_distance, draw).0 <= 0 && offset_spec(spawn_distance, draw).1 <= 0)
            || (offset_spec(spawn_distance, draw).0 >= 0 && offset_spec(spawn_distance, draw).1
            >= 0),
{
}

} // verus!
