use vstd::prelude::*;
use crate::enemies::{instantiate, instantiate_spec, EnemyType, SpawnedEnemy};
use crate::placement::{
    lemma_place_in_bounds, place_with, placed_at, random_draw, PlacementDraw, WorldBounds, WorldPos,
    SPAWN_DISTANCE,
};
use crate::timer::RepeatingTimer;

verus! {

/// Nanoseconds in a second.
pub const NANOS_PER_SEC: u64 = 1_000_000_000;

/// Time between two waves of the first level: 5 s.
pub const WAVE_INTERVAL: u64 = 5 * NANOS_PER_SEC;

/// Time that each stage of the first level lasts: 60 s.
pub const STAGE_INTERVAL: u64 = 60 * NANOS_PER_SEC;

/// A request for `count` enemies of kind `enemy`.
#[derive(Clone, Copy, Debug, PartialEq, Eq, Structural)]
pub struct SpawnMob {
    pub enemy: EnemyType,
    pub count: u32,
}

/// One difficulty stage: the mobs that each of its waves brings.
pub struct SpawnStage {
    pub mobs: Vec<SpawnMob>,
}

/// What one wave brought into the world.
pub struct SpawnWave {
    /// Index of the stage whose mobs were spawned.
    pub stage: usize,
    pub enemies: Vec<SpawnedEnemy>,
}

/// The spawn schedule of a gameplay session: the stage table, a clock of
/// the whole session, the wave and stage timers, and the active stage.
/// Times are in nanoseconds.
pub struct LevelSpawns {
    pub spawns: Vec<SpawnStage>,
    pub global_timer: u64,
    pub wave_timer: RepeatingTimer,
    pub stage_timer: RepeatingTimer,
    pub current_stage: usize,
}

/// The kinds of a wave of `mobs`, one entry per enemy, in the order of the
/// requests.
pub open spec fn wave_kinds(mobs: Seq<SpawnMob>) -> Seq<EnemyType>
    decreases mobs.len(),
{
    if mobs.len() == 0 {
        Seq::empty()
    } else {
        let m = mobs.last();
        wave_kinds(mobs.drop_last()) + Seq::new(m.count as nat, |_i: int| m.enemy)
    }
}

/// A stage index stays valid: inside the table, or 0 for an empty table.
pub open spec fn stage_ok(len: nat, stage: nat) -> bool {
    stage == 0 || stage < len
}

/// The active stage after a frame: one on when the stage timer completed
/// and a next stage exists, else unchanged.
pub open spec fn next_stage(len: nat, stage: nat, stage_finished: bool) -> nat {
    if stage_finished && stage + 1 < len {
        (stage + 1) as nat
    } else {
        stage
    }
}

/// The active stage after frames whose stage-timer completions are `ticks`.
pub open spec fn stage_after(len: nat, stage: nat, ticks: Seq<bool>) -> nat
    decreases ticks.len(),
{
    if ticks.len() == 0 {
        stage
    } else {
        next_stage(len, stage_after(len, stage, ticks.drop_last()), ticks.last())
    }
}

/// The stage to spawn a wave for in a frame, if any: the stage active at the
/// start of the frame, when the wave timer completed, the stage exists, and
/// the player's position is known.
pub open spec fn wave_stage(
    len: nat,
    stage: usize,
    wave_finished: bool,
    player_present: bool,
) -> Option<usize> {
    if wave_finished && stage < len && player_present {
        Some(stage)
    } else {
        None
    }
}

impl LevelSpawns {
    pub open spec fn wf(&self) -> bool {
        &&& self.wave_timer.wf()
        &&& self.stage_timer.wf()
        &&& stage_ok(self.spawns@.len(), self.current_stage as nat)
    }

    pub open spec fn stage_mobs(&self, i: int) -> Seq<SpawnMob> {
        self.spawns@[i].mobs@
    }

    /// A schedule at the start of a session: stage 0, timers fresh.
    pub fn new(spawns: Vec<SpawnStage>, wave_interval: u64, stage_interval: u64) -> (r: LevelSpawns)
        ensures
            r.wf(),
            r.spawns@ == spawns@,
            r.global_timer == 0,
            r.wave_timer == (RepeatingTimer {
                duration: wave_interval,
                elapsed: 0,
                just_finished: false,
            }),
            r.stage_timer == (RepeatingTimer {
                duration: stage_interval,
                elapsed: 0,
                just_finished: false,
            }),
            r.current_stage == 0,
    {
        LevelSpawns {
            spawns,
            global_timer: 0,
            wave_timer: RepeatingTimer::new(wave_interval),
            stage_timer: RepeatingTimer::new(stage_interval),
            current_stage: 0,
        }
    }

    /// Advances the schedule by one frame of `dt` nanoseconds and decides
    /// the frame: returns the stage whose wave is due, if one is, and moves
    /// to the next stage when the stage timer completes. The wave is decided
    /// on the stage active before the stage moves on.
    pub fn advance(&mut self, dt: u64, player_present: bool) -> (r: Option<usize>)
        requires
            old(self).wf(),
        ensures
            final(self).wf(),
            final(self).spawns@ == old(self).spawns@,
            final(self).global_timer == old(self).global_timer.saturating_add(dt),
            final(self).wave_timer == old(self).wave_timer.tick_spec(dt),
            final(self).stage_timer == old(self).stage_timer.tick_spec(dt),
            r == wave_stage(
                old(self).spawns@.len(),
                old(self).current_stage,
                final(self).wave_timer.just_finished,
                player_present,
            ),
            final(self).current_stage as nat == next_stage(
                old(self).spawns@.len(),
                old(self).current_stage as nat,
                final(self).stage_timer.just_finished,
            ),
            old(self).current_stage <= final(self).current_stage,
            old(self).current_stage + 1 == old(self).spawns@.len() ==> final(self).current_stage
                == old(self).current_stage,
            !player_present ==> r.is_none(),
    {
        self.global_timer = self.global_timer.saturating_add(dt);
        self.wave_timer.tick(dt);
        self.stage_timer.tick(dt);
        let stage = self.current_stage;
        let wave = if self.wave_timer.just_finished && stage < self.spawns.len() && player_present {
            Some(stage)
        } else {
            None
        };
        if self.stage_timer.just_finished {
            if stage < self.spawns.len() && stage + 1 < self.spawns.len() {
                self.current_stage = stage + 1;
            }
        }
        wave
    }

    /// Runs one frame: advances the schedule and, when a wave is due and the
    /// player's position is known, spawns the wave's enemies around the player.
    pub fn check_for_spawns(
        &mut self,
        dt: u64,
        player: Option<WorldPos>,
        bounds: WorldBounds,
    ) -> (r: Option<SpawnWave>)
        requires
            old(self).wf(),
            bounds.wf(),
        ensures
            final(self).wf(),
            final(self).spawns@ == old(self).spawns@,
            final(self).global_timer == old(self).global_timer.saturating_add(dt),
            final(self).wave_timer == old(self).wave_timer.tick_spec(dt),
            final(self).stage_timer == old(self).stage_timer.tick_spec(dt),
            final(self).current_stage as nat == next_stage(
                old(self).spawns@.len(),
                old(self).current_stage as nat,
                final(self).stage_timer.just_finished,
            ),
            r.is_some() == wave_stage(
                old(self).spawns@.len(),
                old(self).current_stage,
                final(self).wave_timer.just_finished,
                player.is_some(),
            ).is_some(),
            r.is_some() ==> r->0.stage == old(self).current_stage && wave_spawned(
                r->0.enemies@,
                old(self).stage_mobs(old(self).current_stage as int),
                player->0,
                SPAWN_DISTANCE,
                bounds,
            ),
            player.is_none() ==> r.is_none(),
    {
        let due = self.advance(dt, player.is_some());
        match due {
            Some(stage) => {
                let p = player.unwrap();
                let enemies = spawn_enemy_wave(&self.spawns[stage], p, SPAWN_DISTANCE, bounds);
                Some(SpawnWave { stage, enemies })
            },
            None => None,
        }
    }
}

/// The first level: five goblins a wave in the first stage, seven in the
/// second; a wave every 5 s, a new stage every 60 s.
pub fn get_first_level_spawns() -> (r: LevelSpawns)
    ensures
        r.wf(),
        r.spawns@.len() == 2,
        r.stage_mobs(0) == seq![SpawnMob { enemy: EnemyType::Goblin, count: 5 }],
        r.stage_mobs(1) == seq![SpawnMob { enemy: EnemyType::Goblin, count: 7 }],
        r.global_timer == 0,
        r.wave_timer == (RepeatingTimer { duration: WAVE_INTERVAL, elapsed: 0, just_finished: false }),
        r.stage_timer == (RepeatingTimer { duration: STAGE_INTERVAL, elapsed: 0, just_finished: false }),
        r.current_stage == 0,
{
    let first = SpawnStage { mobs: vec![SpawnMob { enemy: EnemyType::Goblin, count: 5 }] };
    let second = SpawnStage { mobs: vec![SpawnMob { enemy: EnemyType::Goblin, count: 7 }] };
    let r = LevelSpawns::new(vec![first, second], WAVE_INTERVAL, STAGE_INTERVAL);
    assert(r.stage_mobs(0) =~= seq![SpawnMob { enemy: EnemyType::Goblin, count: 5 }]);
    assert(r.stage_mobs(1) =~= seq![SpawnMob { enemy: EnemyType::Goblin, count: 7 }]);
    r
}

/// `enemies` is exactly the wave of `mobs` placed with `draws`: one enemy per
/// requested unit, in order, each made at the point its draw gives.
pub open spec fn wave_made_with(
    enemies: Seq<SpawnedEnemy>,
    mobs: Seq<SpawnMob>,
    player: WorldPos,
    distance: u32,
    bounds: WorldBounds,
    draws: Seq<PlacementDraw>,
) -> bool {
    let kinds = wave_kinds(mobs);
    &&& enemies.len() == kinds.len()
    &&& forall|i: int|
        0 <= i < kinds.len() ==> #[trigger] enemies[i] == instantiate_spec(
            kinds[i],
            enemies[i].position,
        ) && placed_at(enemies[i].position, player, distance, bounds, draws[i])
}

/// `enemies` is a wave of `mobs` for some draws that a random source can
/// produce; every enemy is inside the bounds.
pub open spec fn wave_spawned(
    enemies: Seq<SpawnedEnemy>,
    mobs: Seq<SpawnMob>,
    player: WorldPos,
    distance: u32,
    bounds: WorldBounds,
) -> bool {
    let kinds = wave_kinds(mobs);
    &&& enemies.len() == kinds.len()
    &&& forall|i: int|
        0 <= i < kinds.len() ==> {
            &&& #[trigger] enemies[i] == instantiate_spec(kinds[i], enemies[i].position)
            &&& bounds.contains(enemies[i].position)
            &&& exists|d: PlacementDraw|
                d.valid_for(distance) && #[trigger] placed_at(
                    enemies[i].position,
                    player,
                    distance,
                    bounds,
                    d,
                )
        }
}

proof fn lemma_wave_kinds_push(mobs: Seq<SpawnMob>, n: int)
    requires
        0 <= n < mobs.len(),
    ensures
        wave_kinds(mobs.subrange(0, n + 1)) == wave_kinds(mobs.subrange(0, n)) + Seq::new(
            mobs[n].count as nat,
            |_i: int| mobs[n].enemy,
        ),
{
    assert(mobs.subrange(0, n + 1).drop_last() =~= mobs.subrange(0, n));
}

/// Spawns the wave of `stage` around `player`, placing the k-th enemy with
/// the k-th draw.
pub fn spawn_enemy_wave_with(
    stage: &SpawnStage,
    player: WorldPos,
    spawn_distance: u32,
    bounds: WorldBounds,
    draws: &Vec<PlacementDraw>,
) -> (r: Vec<SpawnedEnemy>)
    requires
        bounds.wf(),
        draws@.len() == wave_kinds(stage.mobs@).len(),
        forall|i: int| 0 <= i < draws@.len() ==> #[trigger] draws@[i].split <= spawn_distance,
    ensures
        wave_made_with(r@, stage.mobs@, player, spawn_distance, bounds, draws@),
{
    let mut r: Vec<SpawnedEnemy> = Vec::new();
    let mut m: usize = 0;
    let ghost mobs = stage.mobs@;
    assert(mobs.subrange(0, 0) =~= Seq::<SpawnMob>::empty());
    while m < stage.mobs.len()
        invariant
            mobs == stage.mobs@,
            0 <= m <= mobs.len(),
            bounds.wf(),
            draws@.len() == wave_kinds(mobs).len(),
            forall|i: int| 0 <= i < draws@.len() ==> #[trigger] draws@[i].split <= spawn_distance,
            r@.len() == wave_kinds(mobs.subrange(0, m as int)).len(),
            r@.len() <= draws@.len(),
            wave_made_with(
                r@,
                mobs.subrange(0, m as int),
                player,
                spawn_distance,
                bounds,
                draws@,
            ),
        decreases mobs.len() - m,
    {
        let mob = stage.mobs[m];
        proof {
            lemma_wave_kinds_push(mobs, m as int);
            lemma_wave_kinds_prefix(mobs, m as int + 1);
        }
        let ghost before = r@;
        let ghost kinds_next = wave_kinds(mobs.subrange(0, m as int + 1));
        let mut j: u32 = 0;
        while j < mob.count
            invariant
                mob == mobs[m as int],
                0 <= m < mobs.len(),
                j <= mob.count,
                bounds.wf(),
                kinds_next == wave_kinds(mobs.subrange(0, m as int)) + Seq::new(
                    mob.count as nat,
                    |_i: int| mob.enemy,
                ),
                kinds_next.len() <= draws@.len(),
                forall|i: int| 0 <= i < draws@.len() ==> #[trigger] draws@[i].split <= spawn_distance,
                before.len() == wave_kinds(mobs.subrange(0, m as int)).len(),
                r@.len() == before.len() + j,
                forall|i: int| 0 <= i < before.len() ==> #[trigger] r@[i] == before[i],
                forall|i: int|
                    0 <= i < r@.len() ==> #[trigger] r@[i] == instantiate_spec(
                        kinds_next[i],
                        r@[i].position,
                    ) && placed_at(r@[i].position, player, spawn_distance, bounds, draws@[i]),
            decreases mob.count - j,
        {
            let k = r.len();
            let pos = place_with(player, spawn_distance, bounds, draws[k]);
            let e = instantiate(mob.enemy, pos);
            r.push(e);
            j = j + 1;
        }
        m = m + 1;
    }
    assert(mobs.subrange(0, m as int) =~= mobs);
    r
}

proof fn lemma_wave_kinds_prefix(mobs: Seq<SpawnMob>, n: int)
    requires
        0 <= n <= mobs.len(),
    ensures
        wave_kinds(mobs.subrange(0, n)).len() <= wave_kinds(mobs).len(),
    decreases mobs.len() - n,
{
    if n < mobs.len() {
        lemma_wave_kinds_push(mobs, n);
        lemma_wave_kinds_prefix(mobs, n + 1);
    } else {
        assert(mobs.subrange(0, n) =~= mobs);
    }
}

/// Draws one placement for each enemy of a wave of `mobs`.
fn draw_wave(mobs: &Vec<SpawnMob>, spawn_distance: u32) -> (r: Vec<PlacementDraw>)
    ensures
        r@.len() == wave_kinds(mobs@).len(),
        forall|i: int| 0 <= i < r@.len() ==> #[trigger] r@[i].valid_for(spawn_distance),
{
    let mut r: Vec<PlacementDraw> = Vec::new();
    let mut m: usize = 0;
    while m < mobs.len()
        invariant
            0 <= m <= mobs@.len(),
            r@.len() == wave_kinds(mobs@.subrange(0, m as int)).len(),
            forall|i: int| 0 <= i < r@.len() ==> #[trigger] r@[i].valid_for(spawn_distance),
        decreases mobs@.len() - m,
    {
        proof {
            lemma_wave_kinds_push(mobs@, m as int);
        }
        let count = mobs[m].count;
        let mut j: u32 = 0;
        while j < count
            invariant
                j <= count,
                r@.len() == wave_kinds(mobs@.subrange(0, m as int)).len() + j,
                forall|i: int| 0 <= i < r@.len() ==> #[trigger] r@[i].valid_for(spawn_distance),
            decreases count - j,
        {
            r.push(random_draw(spawn_distance));
            j = j + 1;
        }
        m = m + 1;
    }
    assert(mobs@.subrange(0, m as int) =~= mobs@);
    r
}

/// Spawns the wave of `stage` around `player`: one enemy per requested
/// unit, in order, each at its own random placement.
pub fn spawn_enemy_wave(
    stage: &SpawnStage,
    player: WorldPos,
    spawn_distance: u32,
    bounds: WorldBounds,
) -> (r: Vec<SpawnedEnemy>)
    requires
        bounds.wf(),
    ensures
        wave_spawned(r@, stage.mobs@, player, spawn_distance, bounds),
{
    let draws = draw_wave(&stage.mobs, spawn_distance);
    assert forall|i: int| 0 <= i < draws@.len() implies #[trigger] draws@[i].split
        <= spawn_distance by {
        assert(draws@[i].valid_for(spawn_distance));
    }
    let r = spawn_enemy_wave_with(stage, player, spawn_distance, bounds, &draws);
    assert forall|i: int| 0 <= i < wave_kinds(stage.mobs@).len() implies {
        &&& #[trigger] r@[i] == instantiate_spec(wave_kinds(stage.mobs@)[i], r@[i].position)
        &&& bounds.contains(r@[i].position)
        &&& exists|d: PlacementDraw|
            d.valid_for(spawn_distance) && #[trigger] placed_at(
                r@[i].position,
                player,
                spawn_distance,
                bounds,
                d,
            )
    } by {
        assert(draws@[i].valid_for(spawn_distance));
        assert(placed_at(r@[i].position, player, spawn_distance, bounds, draws@[i]));
        lemma_place_in_bounds(player, spawn_distance, bounds, draws@[i]);
    }
    r
}

/// Over any sequence of frames the active stage never goes back, and it
/// stays a valid index of the table (or 0 for an empty table).
pub proof fn lemma_stage_monotone(len: nat, stage: nat, ticks: Seq<bool>)
    requires
        stage_ok(len, stage),
    ensures
        stage <= stage_after(len, stage, ticks),
        stage_ok(len, stage_after(len, stage, ticks)),
        len > 0 ==> stage_after(len, stage, ticks) <= len - 1,
    decreases ticks.len(),
{
    if ticks.len() > 0 {
        lemma_stage_monotone(len, stage, ticks.drop_last());
    }
}

/// Once the last stage is active, further stage-timer completions leave it
/// active.
pub proof fn lemma_exhausted_stage_stays(len: nat, ticks: Seq<bool>)
    requires
        len > 0,
    ensures
        stage_after(len, (len - 1) as nat, ticks) == len - 1,
    decreases ticks.len(),
{
    if ticks.len() > 0 {
        lemma_exhausted_stage_stays(len, ticks.drop_last());
    }
}

} // verus!
