use vstd::prelude::*;
use crate::geometry::{outside, overlap, Rect};
use crate::entity::{Boss, Bullet, Ship, Shot, ShotType, SHOT_SPEED};
use crate::collision::{
    boss_after_shots, bullets_after_shots, bullets_hitting, collidable, shots_after_boss,
    shots_after_bullets, shots_hitting,
};
use crate::game::{
    activated, bullets_in_flight, ship_struck, fire_timers, initial_view, live_shot, shots_fired,
    shots_in_flight, tick, GameView, Stage, SUPER_TIME, SUPER_WAIT_TIME,
};

verus! {

proof fn lemma_bullets_hitting_none(r: Rect, bs: Seq<Bullet>)
    requires
        forall|j: int| 0 <= j < bs.len() ==> !overlap(r, #[trigger] bs[j].rect()),
    ensures
        bullets_hitting(r, bs) == 0,
    decreases bs.len(),
{
    if bs.len() > 0 {
        lemma_bullets_hitting_none(r, bs.drop_last());
    }
}

proof fn lemma_bullets_hitting_one(r: Rect, bs: Seq<Bullet>, j: int)
    requires
        0 <= j < bs.len(),
        overlap(r, bs[j].rect()),
        forall|k: int| 0 <= k < bs.len() && k != j ==> !overlap(r, #[trigger] bs[k].rect()),
    ensures
        bullets_hitting(r, bs) == 1,
    decreases bs.len(),
{
    let t = bs.drop_last();
    if j == bs.len() - 1 {
        lemma_bullets_hitting_none(r, t);
    } else {
        lemma_bullets_hitting_one(r, t, j);
    }
}

proof fn lemma_shots_hitting_none(r: Rect, ss: Seq<Shot>)
    requires
        forall|i: int| 0 <= i < ss.len() ==> !overlap(#[trigger] ss[i].rect(), r),
    ensures
        shots_hitting(r, ss) == 0,
    decreases ss.len(),
{
    if ss.len() > 0 {
        lemma_shots_hitting_none(r, ss.drop_last());
    }
}

proof fn lemma_shots_hitting_one(r: Rect, ss: Seq<Shot>, i: int)
    requires
        0 <= i < ss.len(),
        overlap(ss[i].rect(), r),
        forall|k: int| 0 <= k < ss.len() && k != i ==> !overlap(#[trigger] ss[k].rect(), r),
    ensures
        shots_hitting(r, ss) == 1,
    decreases ss.len(),
{
    let t = ss.drop_last();
    if i == ss.len() - 1 {
        lemma_shots_hitting_none(r, t);
    } else {
        lemma_shots_hitting_one(r, t, i);
    }
}

/// `s` stands where some shot of `fired` that was on the playfield with hit
/// points left stands after one step.
pub open spec fn moved_from_live(s: Shot, fired: Seq<Shot>) -> bool {
    exists|i: int|
        0 <= i < fired.len() && live_shot(fired[i]) && s.x == fired[i].x && s.y == fired[i].y
            - SHOT_SPEED
}

/// Bounds culling: after a step in play no bullet is off the playfield, and
/// every shot left is a shot that was on the playfield with hit points left
/// once this step's shot was fired, moved up by one step.
pub proof fn lemma_bounds_culling(g: GameView, now: u64, r1: u32, r2: u32)
    requires
        g.wf(),
        g.stage == Stage::Playing,
        g.start_ms <= now,
    ensures
        ({
            let t = tick(g, now, r1, r2);
            let fired = shots_fired(g.shots, g.shooting, g.ship, g.super_time);
            &&& forall|k: int|
                0 <= k < t.bullets.len() ==> !outside(
                    #[trigger] t.bullets[k].x as int,
                    t.bullets[k].y as int,
                )
            &&& forall|k: int| 0 <= k < t.shots.len() ==> moved_from_live(#[trigger] t.shots[k], fired)
        }),
{
    let t = tick(g, now, r1, r2);
    let bs = bullets_in_flight(g.bullets, g.bosses[0], r1, r2);
    let spawned = if g.bullets.len() < crate::game::MAX_BULLET_NUMBER {
        g.bullets.push(crate::game::spawned_bullet(g.bosses[0], r1, r2))
    } else {
        g.bullets
    };
    let moved = spawned.map_values(|b: Bullet| b.moved());
    assert forall|k: int| 0 <= k < t.bullets.len() implies !outside(
        #[trigger] t.bullets[k].x as int,
        t.bullets[k].y as int,
    ) by {
        moved.lemma_filter_pred(|b: Bullet| crate::game::live_bullet(b), k);
    }
    let fired = shots_fired(g.shots, g.shooting, g.ship, g.super_time);
    let culled = fired.filter(|s: Shot| live_shot(s));
    assert forall|k: int| 0 <= k < t.shots.len() implies moved_from_live(#[trigger] t.shots[k], fired) by {
        crate::game::lemma_filter_elem(fired, |s: Shot| live_shot(s), k);
        let i = choose|i: int| 0 <= i < fired.len() && fired[i] == culled[k];
        assert(fired[i] == culled[k]);
        assert(t.shots[k].x == fired[i].x && t.shots[k].y == fired[i].y - SHOT_SPEED);
    }
}

/// Hit-point depletion: a shot and a bullet that overlap each other and
/// nothing else both lose exactly one hit point; a shot or a bullet that
/// overlaps nothing keeps its hit points.
pub proof fn lemma_hp_depletion(ss: Seq<Shot>, bs: Seq<Bullet>, i: int, j: int)
    requires
        collidable(ss, bs),
        0 <= i < ss.len(),
        0 <= j < bs.len(),
        overlap(ss[i].rect(), bs[j].rect()),
        forall|k: int| 0 <= k < bs.len() && k != j ==> !overlap(ss[i].rect(), #[trigger] bs[k].rect()),
        forall|k: int| 0 <= k < ss.len() && k != i ==> !overlap(#[trigger] ss[k].rect(), bs[j].rect()),
    ensures
        shots_after_bullets(ss, bs)[i].hp == ss[i].hp - 1,
        bullets_after_shots(ss, bs)[j].hp == bs[j].hp - 1,
{
    lemma_bullets_hitting_one(ss[i].rect(), bs, j);
    lemma_shots_hitting_one(bs[j].rect(), ss, i);
}

/// A shot that overlaps no bullet, and a bullet that no shot overlaps, keep
/// their hit points.
pub proof fn lemma_hp_untouched(ss: Seq<Shot>, bs: Seq<Bullet>, i: int, j: int)
    requires
        0 <= i < ss.len(),
        0 <= j < bs.len(),
    ensures
        (forall|k: int| 0 <= k < bs.len() ==> !overlap(ss[i].rect(), #[trigger] bs[k].rect()))
            ==> shots_after_bullets(ss, bs)[i] == ss[i],
        (forall|k: int| 0 <= k < ss.len() ==> !overlap(#[trigger] ss[k].rect(), bs[j].rect()))
            ==> bullets_after_shots(ss, bs)[j] == bs[j],
{
    if forall|k: int| 0 <= k < bs.len() ==> !overlap(ss[i].rect(), #[trigger] bs[k].rect()) {
        lemma_bullets_hitting_none(ss[i].rect(), bs);
    }
    if forall|k: int| 0 <= k < ss.len() ==> !overlap(#[trigger] ss[k].rect(), bs[j].rect()) {
        lemma_shots_hitting_none(bs[j].rect(), ss);
    }
}

/// Hit-point depletion against the boss: the only shot overlapping the boss
/// and the boss both lose exactly one hit point; a shot that misses keeps its
/// hit points.
pub proof fn lemma_boss_hp_depletion(ss: Seq<Shot>, boss: Boss, i: int)
    requires
        0 <= i < ss.len(),
        -10_000 <= ss[i].hp <= 10_000,
        -10_000 <= boss.hp <= 10_000,
    ensures
        overlap(ss[i].rect(), boss.rect()) ==> shots_after_boss(ss, boss)[i].hp == ss[i].hp - 1,
        !overlap(ss[i].rect(), boss.rect()) ==> shots_after_boss(ss, boss)[i] == ss[i],
        (overlap(ss[i].rect(), boss.rect()) && forall|k: int|
            0 <= k < ss.len() && k != i ==> !overlap(#[trigger] ss[k].rect(), boss.rect()))
            ==> boss_after_shots(ss, boss).hp == boss.hp - 1,
{
    if overlap(ss[i].rect(), boss.rect()) && forall|k: int|
        0 <= k < ss.len() && k != i ==> !overlap(#[trigger] ss[k].rect(), boss.rect()) {
        lemma_shots_hitting_one(boss.rect(), ss, i);
    }
}

/// Lethality: a bullet overlapping the ship in a step ends the game in that
/// step, whatever else collides in it.
pub proof fn lemma_lethality(g: GameView, now: u64, r1: u32, r2: u32, j: int)
    requires
        g.wf(),
        g.stage == Stage::Playing,
        0 <= j < bullets_in_flight(g.bullets, g.bosses[0], r1, r2).len(),
        overlap(g.ship.rect(), bullets_in_flight(g.bullets, g.bosses[0], r1, r2)[j].rect()),
    ensures
        tick(g, now, r1, r2).stage == Stage::GameOver,
{
    let bs = bullets_in_flight(g.bullets, g.bosses[0], r1, r2);
    assert(overlap(g.ship.rect(), bs[j].rect()));
}

/// Clear condition: once the boss's hit points reach zero in a step, it is
/// removed in that step, and the game is cleared unless a bullet struck the
/// ship in it too.
pub proof fn lemma_clear_condition(g: GameView, now: u64, r1: u32, r2: u32)
    requires
        g.wf(),
        g.stage == Stage::Playing,
        boss_after_shots(
            shots_after_bullets(
                shots_in_flight(g.shots, g.shooting, g.ship, g.super_time),
                bullets_in_flight(g.bullets, g.bosses[0], r1, r2),
            ),
            g.bosses[0],
        ).hp <= 0,
    ensures
        tick(g, now, r1, r2).bosses.len() == 0,
        !ship_struck(g.ship, bullets_in_flight(g.bullets, g.bosses[0], r1, r2)) ==> tick(
            g,
            now,
            r1,
            r2,
        ).stage == Stage::GameClear,
        ship_struck(g.ship, bullets_in_flight(g.bullets, g.bosses[0], r1, r2)) ==> tick(
            g,
            now,
            r1,
            r2,
        ).stage == Stage::GameOver,
{
}

/// Wait timer, super time and ship mode after `n` steps without firing from
/// zeroed timers.
pub open spec fn idle_run(n: nat) -> (i32, i32, ShotType)
    decreases n,
{
    if n == 0 {
        (0, 0, ShotType::Normal)
    } else {
        let p = idle_run((n - 1) as nat);
        fire_timers(false, p.0, p.1, p.2)
    }
}

/// Super-mode cycle: up to the threshold, idle steps only count; the step
/// after it starts super mode with full super time.
pub proof fn lemma_idle_run(n: nat)
    requires
        n <= SUPER_WAIT_TIME,
    ensures
        idle_run(n) == (n as i32, 0i32, ShotType::Normal),
        idle_run((SUPER_WAIT_TIME + 1) as nat) == (
            (SUPER_WAIT_TIME + 1) as i32,
            SUPER_TIME,
            ShotType::Super,
        ),
    decreases n,
{
    if n > 0 {
        lemma_idle_run((n - 1) as nat);
    } else {
        lemma_idle_prefix((SUPER_WAIT_TIME) as nat);
    }
}

proof fn lemma_idle_prefix(n: nat)
    requires
        n <= SUPER_WAIT_TIME,
    ensures
        idle_run(n) == (n as i32, 0i32, ShotType::Normal),
    decreases n,
{
    if n > 0 {
        lemma_idle_prefix((n - 1) as nat);
    }
}

/// A step in play without firing advances the timers exactly as one idle
/// step does.
pub proof fn lemma_idle_tick(g: GameView, now: u64, r1: u32, r2: u32, n: nat)
    requires
        g.wf(),
        g.stage == Stage::Playing,
        !g.shooting,
        n <= SUPER_WAIT_TIME,
        (g.wait_time, g.super_time, g.ship.t) == idle_run(n),
    ensures
        ({
            let t = tick(g, now, r1, r2);
            (t.wait_time, t.super_time, t.ship.t) == idle_run(n + 1)
        }),
{
}

/// Firing resets the wait timer in every step in play.
pub proof fn lemma_firing_resets_wait(g: GameView, now: u64, r1: u32, r2: u32)
    requires
        g.wf(),
        g.stage == Stage::Playing,
        g.shooting,
    ensures
        tick(g, now, r1, r2).wait_time == 0,
{
}

/// Reset idempotence: activating a finished game, from either end, yields
/// the fresh session: the ship at its start, one full-health boss, no
/// bullets or shots and zeroed timers. Doing it again changes nothing more.
pub proof fn lemma_reset_fresh(g: GameView, now: u64)
    requires
        g.stage == Stage::GameOver || g.stage == Stage::GameClear,
    ensures
        activated(g, now) == initial_view(now),
        activated(activated(g, now), now) == (GameView {
            stage: Stage::Playing,
            ..initial_view(now)
        }),
        initial_view(now).wf(),
        initial_view(now).ship == Ship::initial(),
        initial_view(now).bosses == seq![Boss::initial()],
        initial_view(now).bullets.len() == 0,
        initial_view(now).shots.len() == 0,
        initial_view(now).wait_time == 0,
        initial_view(now).super_time == 0,
        !initial_view(now).shooting,
{
}

} // verus!
