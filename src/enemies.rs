use vstd::prelude::*;
use crate::placement::WorldPos;

verus! {

/// The kinds of enemy that a stage can ask for.
#[derive(Clone, Copy, Debug, PartialEq, Eq, Structural)]
pub enum EnemyType {
    Goblin,
    Mushroom,
    Slime,
}

/// Which way an actor faces.
#[derive(Clone, Copy, Debug, PartialEq, Eq, Structural)]
pub enum Direction {
    Up,
    Down,
    Left,
    Right,
    UpLeft,
    UpRight,
    DownLeft,
    DownRight,
}

/// An inclusive range `first..=last` of frame indices of a sprite sheet.
#[derive(Clone, Copy, Debug, PartialEq, Eq, Structural)]
pub struct AnimationIndices {
    pub first: usize,
    pub last: usize,
}

/// The contact damage that an enemy deals.
#[derive(Clone, Copy, Debug, PartialEq, Eq, Structural)]
pub struct Harmful {
    pub damage: u32,
}

/// The static data from which every enemy of one kind is made.
#[derive(Clone, Copy, Debug, PartialEq, Eq, Structural)]
pub struct EnemyTemplate {
    /// The kind that the entity is made as.
    pub kind: EnemyType,
    /// Frame grid of the sprite sheet: columns and rows of 16x16 frames.
    pub columns: usize,
    pub rows: usize,
    pub idle: AnimationIndices,
    pub moving: AnimationIndices,
    pub speed: u32,
    pub health: u32,
    pub damage: u32,
}

/// A live enemy as it enters the world.
#[derive(Clone, Copy, Debug, PartialEq, Eq, Structural)]
pub struct SpawnedEnemy {
    pub kind: EnemyType,
    pub position: WorldPos,
    pub health: u32,
    pub harmful: Harmful,
    pub speed: u32,
    pub direction: Direction,
    pub is_moving: bool,
    /// The frame of the sprite sheet shown now.
    pub frame: usize,
    pub idle: AnimationIndices,
    pub moving: AnimationIndices,
    /// Marks the entity as part of the running gameplay session, swept on game over.
    pub gameplay_only: bool,
}

pub open spec fn goblin_template() -> EnemyTemplate {
    EnemyTemplate {
        kind: EnemyType::Goblin,
        columns: 6,
        rows: 1,
        idle: AnimationIndices { first: 0, last: 1 },
        moving: AnimationIndices { first: 0, last: 5 },
        speed: 100,
        health: 10,
        damage: 10,
    }
}

/// Goblins have their own template; kinds without content of their own yet
/// fall back to the goblin's.
pub open spec fn template_spec(kind: EnemyType) -> EnemyTemplate {
    match kind {
        EnemyType::Goblin => goblin_template(),
        _ => goblin_template(),
    }
}

pub open spec fn template_wf(t: EnemyTemplate) -> bool {
    &&& t.health > 0
    &&& t.damage > 0
    &&& t.idle.first <= t.idle.last < t.columns * t.rows
    &&& t.moving.first <= t.moving.last < t.columns * t.rows
}

/// The enemy made of `kind`'s template at `position`: idle, facing right,
/// showing the first idle frame, with the template's health and damage.
pub open spec fn instantiate_spec(kind: EnemyType, position: WorldPos) -> SpawnedEnemy {
    let t = template_spec(kind);
    SpawnedEnemy {
        kind: t.kind,
        position,
        health: t.health,
        harmful: Harmful { damage: t.damage },
        speed: t.speed,
        direction: Direction::Right,
        is_moving: false,
        frame: t.idle.first,
        idle: t.idle,
        moving: t.moving,
        gameplay_only: true,
    }
}

/// Looks up the template for `kind`; never fails.
pub fn get_enemy_for_type(kind: EnemyType) -> (r: EnemyTemplate)
    ensures
        r == template_spec(kind),
        template_wf(r),
{
    let goblin = EnemyTemplate {
        kind: EnemyType::Goblin,
        columns: 6,
        rows: 1,
        idle: AnimationIndices { first: 0, last: 1 },
        moving: AnimationIndices { first: 0, last: 5 },
        speed: 100,
        health: 10,
        damage: 10,
    };
    match kind {
        EnemyType::Goblin => goblin,
        _ => goblin,
    }
}

/// Path of the sprite sheet of the template that `kind` resolves to.
pub fn get_sprite_location(kind: EnemyType) -> (r: &'static str)
    ensures
        r == "enemy/goblin/goblin_spritesheet.png",
{
    match kind {
        EnemyType::Goblin => "enemy/goblin/goblin_spritesheet.png",
        _ => "enemy/goblin/goblin_spritesheet.png",
    }
}

/// Makes the enemy of `kind` at `position`.
pub fn instantiate(kind: EnemyType, position: WorldPos) -> (r: SpawnedEnemy)
    ensures
        r == instantiate_spec(kind, position),
        r.health > 0,
        r.harmful.damage > 0,
{
    let t = get_enemy_for_type(kind);
    SpawnedEnemy {
        kind: t.kind,
        position,
        health: t.health,
        harmful: Harmful { damage: t.damage },
        speed: t.speed,
        direction: Direction::Right,
        is_moving: false,
        frame: t.idle.first,
        idle: t.idle,
        moving: t.moving,
        gameplay_only: true,
    }
}

/// The frame that follows `frame` within `indices`: one on, or back to
/// `first` after `last`.
pub open spec fn next_frame_spec(frame: usize, indices: AnimationIndices) -> usize {
    if frame == indices.last {
        indices.first
    } else {
        (frame + 1) as usize
    }
}

/// Advances an animation by one frame.
pub fn next_frame(frame: usize, indices: AnimationIndices) -> (r: usize)
    requires
        indices.first <= indices.last,
        frame <= indices.last,
    ensures
        r == next_frame_spec(frame, indices),
        indices.first <= r <= indices.last || (frame < indices.first && r == frame + 1),
{
    if frame == indices.last {
        indices.first
    } else {
        frame + 1
    }
}

} // verus!
