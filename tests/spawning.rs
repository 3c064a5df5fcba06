use bevy_survivors::enemies::{
    get_enemy_for_type, get_sprite_location, instantiate, next_frame, AnimationIndices,
    Direction, EnemyType,
};
use bevy_survivors::placement::{
    place, place_with, random_draw, PlacementDraw, WorldBounds, WorldPos, SPAWN_DISTANCE,
};
use bevy_survivors::spawner::{
    get_first_level_spawns, spawn_enemy_wave, spawn_enemy_wave_with, LevelSpawns, SpawnMob,
    SpawnStage,
};
use bevy_survivors::timer::RepeatingTimer;

const SEC: u64 = 1_000_000_000;
const MS: u64 = 1_000_000;

fn bounds() -> WorldBounds {
    WorldBounds { half_width: 1500, half_height: 1200 }
}

fn inside(b: WorldBounds, p: WorldPos) -> bool {
    -b.half_width <= p.x && p.x <= b.half_width && -b.half_height <= p.y && p.y <= b.half_height
}

fn goblins(count: u32) -> SpawnStage {
    SpawnStage { mobs: vec![SpawnMob { enemy: EnemyType::Goblin, count }] }
}

#[test]
fn place_stays_in_bounds_for_any_player_position() {
    let b = bounds();
    let players = [
        WorldPos { x: 0, y: 0 },
        WorldPos { x: 1500, y: 1200 },
        WorldPos { x: -1500, y: -1200 },
        WorldPos { x: 100_000, y: -100_000 },
        WorldPos { x: i32::MAX, y: i32::MIN },
    ];
    for p in players {
        for _ in 0..200 {
            let q = place(p, SPAWN_DISTANCE, b);
            assert!(inside(b, q), "{:?} from {:?}", q, p);
        }
    }
}

#[test]
fn place_with_spends_the_whole_budget() {
    let b = WorldBounds { half_width: 10_000, half_height: 10_000 };
    let p = WorldPos { x: 10, y: -20 };
    let q = place_with(p, 1000, b, PlacementDraw { split: 300, flip: false });
    assert_eq!(q, WorldPos { x: 310, y: 680 });
    let q = place_with(p, 1000, b, PlacementDraw { split: 300, flip: true });
    assert_eq!(q, WorldPos { x: -290, y: -720 });
    for _ in 0..500 {
        let d = random_draw(1000);
        let q = place_with(p, 1000, b, d);
        let (ox, oy) = ((q.x - p.x) as i64, (q.y - p.y) as i64);
        assert_eq!(ox.abs() + oy.abs(), 1000);
        assert!((ox >= 0 && oy >= 0) || (ox <= 0 && oy <= 0));
    }
}

#[test]
fn place_with_clamps_near_an_edge() {
    let b = WorldBounds { half_width: 500, half_height: 400 };
    let q = place_with(WorldPos { x: 450, y: -390 }, 1000, b, PlacementDraw { split: 900, flip: true });
    assert_eq!(q, WorldPos { x: -450, y: -400 });
    let q = place_with(WorldPos { x: 450, y: 390 }, 1000, b, PlacementDraw { split: 900, flip: false });
    assert_eq!(q, WorldPos { x: 500, y: 400 });
}

#[test]
fn random_draw_stays_below_the_budget() {
    for _ in 0..1000 {
        let d = random_draw(3);
        assert!(d.split < 3);
    }
    let d = random_draw(1);
    assert_eq!(d.split, 0);
    let d = random_draw(0);
    assert_eq!(d.split, 0);
}

#[test]
fn random_draw_flips_both_ways() {
    let mut seen_true = false;
    let mut seen_false = false;
    for _ in 0..1000 {
        if random_draw(10).flip {
            seen_true = true;
        } else {
            seen_false = true;
        }
    }
    assert!(seen_true && seen_false);
}

#[test]
fn registry_falls_back_to_the_goblin_template() {
    let g = get_enemy_for_type(EnemyType::Goblin);
    assert_eq!(g.kind, EnemyType::Goblin);
    assert_eq!((g.columns, g.rows), (6, 1));
    assert_eq!(g.idle, AnimationIndices { first: 0, last: 1 });
    assert_eq!(g.moving, AnimationIndices { first: 0, last: 5 });
    assert_eq!((g.speed, g.health, g.damage), (100, 10, 10));
    assert_eq!(get_enemy_for_type(EnemyType::Mushroom), g);
    assert_eq!(get_enemy_for_type(EnemyType::Slime), g);
    assert_eq!(get_sprite_location(EnemyType::Goblin), "enemy/goblin/goblin_spritesheet.png");
    assert_eq!(get_sprite_location(EnemyType::Slime), "enemy/goblin/goblin_spritesheet.png");
}

#[test]
fn instantiate_starts_idle_facing_right() {
    let e = instantiate(EnemyType::Goblin, WorldPos { x: 3, y: 4 });
    assert_eq!(e.kind, EnemyType::Goblin);
    assert_eq!(e.position, WorldPos { x: 3, y: 4 });
    assert_eq!(e.health, 10);
    assert_eq!(e.harmful.damage, 10);
    assert_eq!(e.speed, 100);
    assert_eq!(e.direction, Direction::Right);
    assert!(!e.is_moving);
    assert_eq!(e.frame, 0);
    assert!(e.gameplay_only);
    assert_eq!(instantiate(EnemyType::Mushroom, WorldPos { x: 3, y: 4 }), e);
}

#[test]
fn animation_frames_wrap() {
    let run = AnimationIndices { first: 6, last: 11 };
    assert_eq!(next_frame(6, run), 7);
    assert_eq!(next_frame(11, run), 6);
    assert_eq!(next_frame(0, run), 1);
}

#[test]
fn timer_repeats_and_carries_over() {
    let mut t = RepeatingTimer::new(5000);
    t.tick(4999);
    assert!(!t.just_finished);
    assert_eq!(t.elapsed, 4999);
    t.tick(2);
    assert!(t.just_finished);
    assert_eq!(t.elapsed, 1);
    t.tick(1000);
    assert!(!t.just_finished);
    t.tick(u64::MAX);
    assert!(t.just_finished);
    assert_eq!(t.elapsed, ((1001u128 + u64::MAX as u128) % 5000) as u64);
}

#[test]
fn zero_length_timer_finishes_every_tick() {
    let mut t = RepeatingTimer::new(0);
    t.tick(0);
    assert!(t.just_finished);
    assert_eq!(t.elapsed, 0);
}

#[test]
fn wave_count_correctness() {
    let b = bounds();
    let stage = goblins(5);
    let enemies = spawn_enemy_wave(&stage, WorldPos { x: 1400, y: -1100 }, SPAWN_DISTANCE, b);
    assert_eq!(enemies.len(), 5);
    for e in &enemies {
        assert_eq!(e.kind, EnemyType::Goblin);
        assert!(e.health > 0);
        assert!(e.harmful.damage > 0);
        assert!(inside(b, e.position));
    }
}

#[test]
fn wave_follows_request_order_and_draws() {
    let stage = SpawnStage {
        mobs: vec![
            SpawnMob { enemy: EnemyType::Goblin, count: 2 },
            SpawnMob { enemy: EnemyType::Slime, count: 0 },
            SpawnMob { enemy: EnemyType::Mushroom, count: 1 },
        ],
    };
    let b = WorldBounds { half_width: 5000, half_height: 5000 };
    let draws = vec![
        PlacementDraw { split: 0, flip: false },
        PlacementDraw { split: 1000, flip: true },
        PlacementDraw { split: 250, flip: false },
    ];
    let r = spawn_enemy_wave_with(&stage, WorldPos { x: 0, y: 0 }, 1000, b, &draws);
    let positions: Vec<WorldPos> = r.iter().map(|e| e.position).collect();
    assert_eq!(
        positions,
        vec![
            WorldPos { x: 0, y: 1000 },
            WorldPos { x: -1000, y: 0 },
            WorldPos { x: 250, y: 750 },
        ]
    );
    assert!(r.iter().all(|e| e.kind == EnemyType::Goblin));
}

#[test]
fn empty_stage_spawns_nothing() {
    let stage = SpawnStage { mobs: vec![] };
    assert!(spawn_enemy_wave(&stage, WorldPos { x: 0, y: 0 }, SPAWN_DISTANCE, bounds()).is_empty());
    assert!(spawn_enemy_wave(&goblins(0), WorldPos { x: 0, y: 0 }, SPAWN_DISTANCE, bounds()).is_empty());
}

#[test]
fn first_level_table() {
    let l = get_first_level_spawns();
    assert_eq!(l.spawns.len(), 2);
    assert_eq!(l.spawns[0].mobs, vec![SpawnMob { enemy: EnemyType::Goblin, count: 5 }]);
    assert_eq!(l.spawns[1].mobs, vec![SpawnMob { enemy: EnemyType::Goblin, count: 7 }]);
    assert_eq!(l.wave_timer.duration, 5 * SEC);
    assert_eq!(l.stage_timer.duration, 60 * SEC);
    assert_eq!(l.current_stage, 0);
    assert_eq!(l.global_timer, 0);
}

#[test]
fn end_to_end_scenario() {
    let mut l = get_first_level_spawns();
    let player = Some(WorldPos { x: 0, y: 0 });
    let b = bounds();
    let mut waves: Vec<(u64, usize, usize)> = Vec::new();
    for second in 1..=125u64 {
        if let Some(w) = l.check_for_spawns(SEC, player, b) {
            assert!(w.enemies.iter().all(|e| e.kind == EnemyType::Goblin && inside(b, e.position)));
            waves.push((second, w.stage, w.enemies.len()));
        }
        if second < 60 {
            assert_eq!(l.current_stage, 0);
        } else {
            assert_eq!(l.current_stage, 1);
        }
    }
    assert_eq!(waves[0], (5, 0, 5));
    // the wave at 60 s is decided before the stage moves on
    assert!(waves.contains(&(60, 0, 5)));
    assert!(waves.contains(&(65, 1, 7)));
    assert!(waves.contains(&(120, 1, 7)));
    assert_eq!(waves.len(), 25);
    assert_eq!(l.global_timer, 125 * SEC);
}

#[test]
fn missing_player_skip() {
    let mut with = get_first_level_spawns();
    let mut without = get_first_level_spawns();
    with.check_for_spawns(4000 * MS, Some(WorldPos { x: 0, y: 0 }), bounds());
    without.check_for_spawns(4000 * MS, None, bounds());
    let a = with.check_for_spawns(1500 * MS, Some(WorldPos { x: 0, y: 0 }), bounds());
    let b = without.check_for_spawns(1500 * MS, None, bounds());
    assert_eq!(a.map(|w| w.enemies.len()), Some(5));
    assert!(b.is_none());
    assert_eq!(with.wave_timer, without.wave_timer);
    assert_eq!(without.wave_timer.elapsed, 500 * MS);
    let c = without.check_for_spawns(4500 * MS, Some(WorldPos { x: 0, y: 0 }), bounds());
    assert_eq!(c.map(|w| w.enemies.len()), Some(5));
}

#[test]
fn idempotent_exhaustion() {
    let mut l = get_first_level_spawns();
    for _ in 0..10 {
        l.advance(60 * SEC, false);
        assert_eq!(l.current_stage, 1);
    }
}

#[test]
fn stage_never_decreases() {
    let mut l = LevelSpawns::new(vec![goblins(1), goblins(2), goblins(3)], 7, 10);
    let mut last = 0;
    for dt in [3u64, 9, 0, 25, 1, 40, 4, 100, 13] {
        l.advance(dt, true);
        assert!(l.current_stage >= last);
        assert!(l.current_stage <= 2);
        last = l.current_stage;
    }
    assert_eq!(l.current_stage, 2);
}

#[test]
fn empty_table_never_spawns() {
    let mut l = LevelSpawns::new(Vec::new(), 5, 5);
    for _ in 0..5 {
        assert!(l.check_for_spawns(5, Some(WorldPos { x: 0, y: 0 }), bounds()).is_none());
        assert_eq!(l.current_stage, 0);
    }
}
