use vstd::prelude::*;
use rand::Rng;
use crate::geometry::{outside, overlap};
use crate::entity::{
    Boss, Bullet, Character, Ship, Shot, ShotType, BOSS_WIDTH, BULLET_HEIGHT, BULLET_STRENGTH, BULLET_WIDTH,
    POINTER_LIMIT, SHIP_WIDTH, SHIP_Y, SHOT_HEIGHT, SHOT_SPEED, SHOT_WIDTH, SUPER_SHOT_HEIGHT,
    SUPER_SHOT_HP, SUPER_SHOT_WIDTH,
};
use crate::collision::{
    boss_after_shots, bullets_after_shots, collide_shots_boss, collide_shots_bullets,
    lemma_bullets_hitting_bounds, lemma_shots_hitting_bounds, shots_after_boss, shots_after_bullets,
};

verus! {

/// Bullets alive at once never exceed this.
pub const MAX_BULLET_NUMBER: usize = 500;

/// Shots alive at once never exceed this: they climb at a fixed speed and at
/// most one is fired per tick.
pub const MAX_SHOT_NUMBER: usize = 100;

/// Ticks without firing before super mode starts.
pub const SUPER_WAIT_TIME: i32 = 200;

/// Length of super mode, counted in super shots.
pub const SUPER_TIME: i32 = 200;

/// Upper end of the range of a random draw.
pub const DRAW_RANGE: u32 = 1000;

/// Top-level state of a session.
#[derive(Clone, Copy, Debug, PartialEq, Eq, Structural)]
pub enum Stage {
    Opening,
    Playing,
    GameOver,
    GameClear,
}

/// One game session: the ship, the boss, every projectile and the timers.
#[derive(Debug)]
pub struct Game {
    pub stage: Stage,
    pub shooting: bool,
    pub wait_time: i32,
    pub super_time: i32,
    pub ship: Ship,
    pub bosses: Vec<Boss>,
    pub bullets: Vec<Bullet>,
    pub shots: Vec<Shot>,
    pub max_update_ms: u64,
    pub max_draw_ms: u64,
    pub passed_ms: u64,
    pub start_ms: u64,
}

/// The session as a mathematical value.
pub struct GameView {
    pub stage: Stage,
    pub shooting: bool,
    pub wait_time: i32,
    pub super_time: i32,
    pub ship: Ship,
    pub bosses: Seq<Boss>,
    pub bullets: Seq<Bullet>,
    pub shots: Seq<Shot>,
    pub max_update_ms: u64,
    pub max_draw_ms: u64,
    pub passed_ms: u64,
    pub start_ms: u64,
}

impl View for Game {
    type V = GameView;

    open spec fn view(&self) -> GameView {
        GameView {
            stage: self.stage,
            shooting: self.shooting,
            wait_time: self.wait_time,
            super_time: self.super_time,
            ship: self.ship,
            bosses: self.bosses@,
            bullets: self.bullets@,
            shots: self.shots@,
            max_update_ms: self.max_update_ms,
            max_draw_ms: self.max_draw_ms,
            passed_ms: self.passed_ms,
            start_ms: self.start_ms,
        }
    }
}

/// A fresh session started at time `now`.
pub open spec fn initial_view(now: u64) -> GameView {
    GameView {
        stage: Stage::Opening,
        shooting: false,
        wait_time: 0,
        super_time: 0,
        ship: Ship::initial(),
        bosses: seq![Boss::initial()],
        bullets: Seq::empty(),
        shots: Seq::empty(),
        max_update_ms: 0,
        max_draw_ms: 0,
        passed_ms: 0,
        start_ms: now,
    }
}

/// Any two shots, in order of firing, are at least one shot step apart.
pub open spec fn spaced(ss: Seq<Shot>) -> bool {
    forall|a: int, b: int|
        0 <= a < b < ss.len() ==> #[trigger] ss[a].y + SHOT_SPEED <= #[trigger] ss[b].y
}

/// The bullets between ticks: capped in number, each on the playfield.
pub open spec fn bullets_ok(bs: Seq<Bullet>) -> bool {
    &&& bs.len() <= MAX_BULLET_NUMBER
    &&& forall|k: int| 0 <= k < bs.len() ==> (#[trigger] bs[k]).wf()
}

/// The shots between ticks: each has moved at least once since it was fired,
/// and they are spaced in order of firing.
pub open spec fn shots_ok(ss: Seq<Shot>) -> bool {
    &&& ss.len() <= MAX_SHOT_NUMBER
    &&& forall|k: int| 0 <= k < ss.len() ==> (#[trigger] ss[k]).wf() && ss[k].y <= SHIP_Y - SHOT_SPEED
    &&& spaced(ss)
}

impl GameView {
    /// The invariant of a session between two events.
    pub open spec fn wf(self) -> bool {
        &&& self.ship.wf()
        &&& self.bosses.len() <= 1
        &&& (self.stage == Stage::Opening || self.stage == Stage::Playing) ==> self.bosses.len() == 1
        &&& forall|k: int|
            0 <= k < self.bosses.len() ==> (#[trigger] self.bosses[k]).wf() && 1
                <= self.bosses[k].hp
        &&& bullets_ok(self.bullets)
        &&& shots_ok(self.shots)
        &&& 0 <= self.wait_time <= SUPER_WAIT_TIME + 1
        &&& self.wait_time > SUPER_WAIT_TIME ==> self.super_time == SUPER_TIME
        &&& 0 <= self.super_time <= SUPER_TIME
    }
}

/// A bullet is kept while its reference point is on the playfield and it has
/// hit points left.
pub open spec fn live_bullet(b: Bullet) -> bool {
    !outside(b.x as int, b.y as int) && b.hp > 0
}

/// A shot is kept while its reference point is on the playfield and it has
/// hit points left.
pub open spec fn live_shot(s: Shot) -> bool {
    !outside(s.x as int, s.y as int) && s.hp > 0
}

/// Velocity component for a draw `r` in `[0, 1000)`: uniform steps over `[-2, 2)`
/// pixels per tick.
pub open spec fn draw_speed(r: u32) -> i64 {
    ((r as int - 500) * 4) as i64
}

/// A bullet leaving the boss's centre.
pub open spec fn spawned_bullet(boss: Boss, r1: u32, r2: u32) -> Bullet {
    Bullet {
        x: (boss.x + BOSS_WIDTH / 2 - BULLET_WIDTH / 2) as i64,
        y: (boss.y + BOSS_WIDTH / 2 - BULLET_WIDTH / 2) as i64,
        dx: draw_speed(r1),
        dy: draw_speed(r2),
        w: BULLET_WIDTH,
        h: BULLET_HEIGHT,
        hp: BULLET_STRENGTH,
    }
}

/// The shot fired from the ship's muzzle: a super shot while super time is
/// left, a normal one otherwise.
pub open spec fn fired_shot(ship: Ship, super_time: i32) -> Shot {
    let cx = ship.x + SHIP_WIDTH / 2;
    if super_time > 0 {
        Shot {
            x: (cx - SUPER_SHOT_WIDTH / 2) as i64,
            y: ship.y,
            dx: 0,
            dy: SHOT_SPEED,
            w: SUPER_SHOT_WIDTH,
            h: SUPER_SHOT_HEIGHT,
            hp: SUPER_SHOT_HP,
            t: ShotType::Super,
        }
    } else {
        Shot {
            x: cx as i64,
            y: ship.y,
            dx: 0,
            dy: SHOT_SPEED,
            w: SHOT_WIDTH,
            h: SHOT_HEIGHT,
            hp: 1,
            t: ShotType::Normal,
        }
    }
}

/// Bullets after spawning, moving and culling.
pub open spec fn bullets_in_flight(bs: Seq<Bullet>, boss: Boss, r1: u32, r2: u32) -> Seq<Bullet> {
    let spawned = if bs.len() < MAX_BULLET_NUMBER {
        bs.push(spawned_bullet(boss, r1, r2))
    } else {
        bs
    };
    spawned.map_values(|b: Bullet| b.moved()).filter(|b: Bullet| live_bullet(b))
}

/// Shots after firing.
pub open spec fn shots_fired(ss: Seq<Shot>, shooting: bool, ship: Ship, super_time: i32) -> Seq<Shot> {
    if shooting {
        ss.push(fired_shot(ship, super_time))
    } else {
        ss
    }
}

/// Shots after firing, culling and then moving.
pub open spec fn shots_in_flight(ss: Seq<Shot>, shooting: bool, ship: Ship, super_time: i32) -> Seq<
    Shot,
> {
    shots_fired(ss, shooting, ship, super_time).filter(|s: Shot| live_shot(s)).map_values(|s: Shot| s.moved())
}

/// Super time left once this tick's shot is fired.
pub open spec fn super_after_firing(g: GameView) -> i32 {
    if g.shooting && g.super_time > 0 {
        (g.super_time - 1) as i32
    } else {
        g.super_time
    }
}

/// Wait timer, super time and ship mode after the fire bookkeeping of a tick.
pub open spec fn fire_timers(shooting: bool, wait: i32, sup: i32, mode: ShotType) -> (
    i32,
    i32,
    ShotType,
) {
    let w1 = if !shooting && sup == 0 {
        (wait + 1) as i32
    } else {
        wait
    };
    let s1 = if w1 > SUPER_WAIT_TIME {
        SUPER_TIME
    } else {
        sup
    };
    let m1 = if w1 > SUPER_WAIT_TIME {
        ShotType::Super
    } else {
        mode
    };
    let m2 = if s1 <= 1 {
        ShotType::Normal
    } else {
        m1
    };
    let w2 = if shooting {
        0
    } else {
        w1
    };
    (w2, s1, m2)
}

/// Whether some bullet overlaps the ship.
pub open spec fn ship_struck(ship: Ship, bs: Seq<Bullet>) -> bool {
    exists|j: int| 0 <= j < bs.len() && overlap(ship.rect(), #[trigger] bs[j].rect())
}

/// One fixed step of the simulation at time `now`, with `r1` and `r2` the
/// random draws for the new bullet's velocity. Only a session in play changes.
/// A bullet on the ship ends the game even when the boss falls in the same
/// step; the fallen boss is removed either way.
pub open spec fn tick(g: GameView, now: u64, r1: u32, r2: u32) -> GameView {
    if g.stage != Stage::Playing {
        g
    } else {
        let bullets = bullets_in_flight(g.bullets, g.bosses[0], r1, r2);
        let shots = shots_in_flight(g.shots, g.shooting, g.ship, g.super_time);
        let shots_b = shots_after_bullets(shots, bullets);
        let boss = boss_after_shots(shots_b, g.bosses[0]).moved();
        let timers = fire_timers(g.shooting, g.wait_time, super_after_firing(g), g.ship.t);
        let cleared = boss.hp <= 0;
        GameView {
            stage: if ship_struck(g.ship, bullets) {
                Stage::GameOver
            } else if cleared {
                Stage::GameClear
            } else {
                Stage::Playing
            },
            shooting: g.shooting,
            wait_time: timers.0,
            super_time: timers.1,
            ship: Ship { t: timers.2, ..g.ship.moved() },
            bosses: if cleared {
                Seq::empty()
            } else {
                seq![boss]
            },
            bullets: bullets_after_shots(shots, bullets),
            shots: shots_after_boss(shots_b, g.bosses[0]),
            passed_ms: (now - g.start_ms) as u64,
            ..g
        }
    }
}

/// Relies on `rand::Rng::gen_range` over `thread_rng()`: the value lies in the
/// half-open range it is given.
#[verifier::external_body]
fn draw_direction() -> (r: u32)
    ensures
        r < DRAW_RANGE,
{
    rand::thread_rng().gen_range(0..DRAW_RANGE)
}

/// Keeps the bullets that are still on the playfield with hit points left.
fn retain_bullets(v: &mut Vec<Bullet>)
    ensures
        final(v)@ == old(v)@.filter(|b: Bullet| live_bullet(b)),
{
    let ghost v0 = v@;
    let mut kept: Vec<Bullet> = Vec::new();
    let mut i: usize = 0;
    while i < v.len()
        invariant
            v@ == v0,
            i <= v0.len(),
            kept@ == v0.take(i as int).filter(|b: Bullet| live_bullet(b)),
        decreases v0.len() - i,
    {
        proof {
            assert(v0.take(i + 1).drop_last() =~= v0.take(i as int));
            reveal(Seq::filter);
        }
        let b = v[i];
        if !b.exit() && b.hp > 0 {
            kept.push(b);
        }
        i = i + 1;
    }
    proof {
        assert(v0.take(v0.len() as int) =~= v0);
    }
    *v = kept;
}

/// Moves every bullet by its velocity.
fn move_bullets(v: &mut Vec<Bullet>)
    requires
        forall|k: int| 0 <= k < old(v)@.len() ==> (#[trigger] old(v)@[k]).wf(),
    ensures
        final(v)@ == old(v)@.map_values(|b: Bullet| b.moved()),
{
    let ghost v0 = v@;
    let n = v.len();
    let mut i: usize = 0;
    while i < n
        invariant
            n == v0.len(),
            i <= n,
            v@.len() == n,
            forall|k: int| 0 <= k < n ==> (#[trigger] v0[k]).wf(),
            forall|k: int| 0 <= k < i ==> v@[k] == (#[trigger] v0[k]).moved(),
            forall|k: int| i <= k < n ==> v@[k] == v0[k],
        decreases n - i,
    {
        let mut b = v[i];
        assert(v0[i as int].wf());
        b.update();
        v.set(i, b);
        i = i + 1;
    }
    proof {
        assert(v@ =~= v0.map_values(|b: Bullet| b.moved()));
    }
}

/// Keeps the shots that are still on the playfield with hit points left.
fn retain_shots(v: &mut Vec<Shot>)
    ensures
        final(v)@ == old(v)@.filter(|s: Shot| live_shot(s)),
        spaced(old(v)@) ==> spaced(final(v)@),
{
    let ghost v0 = v@;
    let mut kept: Vec<Shot> = Vec::new();
    let mut i: usize = 0;
    while i < v.len()
        invariant
            v@ == v0,
            i <= v0.len(),
            kept@ == v0.take(i as int).filter(|s: Shot| live_shot(s)),
            spaced(v0) ==> spaced(kept@),
            spaced(v0) ==> forall|r: int, k: int|
                0 <= r < kept@.len() && i <= k < v0.len() ==> #[trigger] kept@[r].y + SHOT_SPEED
                    <= #[trigger] v0[k].y,
        decreases v0.len() - i,
    {
        proof {
            assert(v0.take(i + 1).drop_last() =~= v0.take(i as int));
            reveal(Seq::filter);
        }
        let s = v[i];
        if !s.exit() && s.hp > 0 {
            kept.push(s);
        }
        i = i + 1;
    }
    proof {
        assert(v0.take(v0.len() as int) =~= v0);
    }
    *v = kept;
}

/// Moves every shot up by its speed.
fn move_shots(v: &mut Vec<Shot>)
    requires
        forall|k: int| 0 <= k < old(v)@.len() ==> (#[trigger] old(v)@[k]).wf() && 0 <= old(v)@[k].y,
    ensures
        final(v)@ == old(v)@.map_values(|s: Shot| s.moved()),
{
    let ghost v0 = v@;
    let n = v.len();
    let mut i: usize = 0;
    while i < n
        invariant
            n == v0.len(),
            i <= n,
            v@.len() == n,
            forall|k: int| 0 <= k < n ==> (#[trigger] v0[k]).wf() && 0 <= v0[k].y,
            forall|k: int| 0 <= k < i ==> v@[k] == (#[trigger] v0[k]).moved(),
            forall|k: int| i <= k < n ==> v@[k] == v0[k],
        decreases n - i,
    {
        let mut s = v[i];
        assert(v0[i as int].wf());
        s.update();
        v.set(i, s);
        i = i + 1;
    }
    proof {
        assert(v@ =~= v0.map_values(|s: Shot| s.moved()));
    }
}

/// Whether some bullet overlaps the ship.
fn ship_is_hit(ship: &Ship, bs: &Vec<Bullet>) -> (r: bool)
    requires
        ship.rect().in_range(),
        forall|k: int| 0 <= k < bs@.len() ==> (#[trigger] bs@[k]).rect().in_range(),
    ensures
        r == ship_struck(*ship, bs@),
{
    let mut hit = false;
    let mut j: usize = 0;
    while j < bs.len()
        invariant
            j <= bs@.len(),
            ship.rect().in_range(),
            forall|k: int| 0 <= k < bs@.len() ==> (#[trigger] bs@[k]).rect().in_range(),
            hit == exists|k: int| 0 <= k < j && overlap(ship.rect(), #[trigger] bs@[k].rect()),
        decreases bs@.len() - j,
    {
        let b = bs[j];
        assert(bs@[j as int].rect().in_range());
        if ship.hit(&b.bounds()) {
            hit = true;
        }
        j = j + 1;
    }
    hit
}

/// An element of a filtered sequence satisfies the predicate and comes from
/// the original sequence.
pub proof fn lemma_filter_elem<A>(s: Seq<A>, p: spec_fn(A) -> bool, k: int)
    requires
        0 <= k < s.filter(p).len(),
    ensures
        p(s.filter(p)[k]),
        exists|i: int| 0 <= i < s.len() && s[i] == s.filter(p)[k],
{
    s.lemma_filter_pred(p, k);
    assert(s.filter(p).contains(s.filter(p)[k]));
    s.lemma_filter_contains_rev(p, s.filter(p)[k]);
}

/// Spaced shots within the band that shots occupy between ticks are few.
pub proof fn lemma_spaced_count(ss: Seq<Shot>)
    requires
        spaced(ss),
        forall|k: int| 0 <= k < ss.len() ==> -SHOT_SPEED <= #[trigger] ss[k].y <= SHIP_Y - SHOT_SPEED,
    ensures
        ss.len() <= MAX_SHOT_NUMBER,
{
    if ss.len() > 1 {
        lemma_spaced_span(ss);
    }
}

proof fn lemma_spaced_span(ss: Seq<Shot>)
    requires
        spaced(ss),
        ss.len() >= 1,
    ensures
        ss[0].y + (ss.len() - 1) * SHOT_SPEED <= ss[ss.len() - 1].y,
    decreases ss.len(),
{
    if ss.len() > 1 {
        let t = ss.drop_last();
        assert(spaced(t)) by {
            assert forall|a: int, b: int| 0 <= a < b < t.len() implies #[trigger] t[a].y + SHOT_SPEED
                <= #[trigger] t[b].y by {
                assert(ss[a].y + SHOT_SPEED <= ss[b].y);
            }
        }
        lemma_spaced_span(t);
        assert(ss[ss.len() - 2].y + SHOT_SPEED <= ss[ss.len() - 1].y);
    }
}

/// Spawns a bullet under the cap, then moves all bullets and drops those that
/// left the playfield or ran out of hit points.
fn advance_bullets(bullets: &mut Vec<Bullet>, boss: &Boss, r1: u32, r2: u32)
    requires
        bullets_ok(old(bullets)@),
        boss.wf(),
        r1 < DRAW_RANGE,
        r2 < DRAW_RANGE,
    ensures
        final(bullets)@ == bullets_in_flight(old(bullets)@, *boss, r1, r2),
        bullets_ok(final(bullets)@),
        forall|k: int| 0 <= k < final(bullets)@.len() ==> (#[trigger] final(bullets)@[k]).hp > 0,
{
    if bullets.len() < MAX_BULLET_NUMBER {
        let b = Bullet {
            x: boss.x + BOSS_WIDTH / 2 - BULLET_WIDTH / 2,
            y: boss.y + BOSS_WIDTH / 2 - BULLET_WIDTH / 2,
            dx: (r1 as i64 - 500) * 4,
            dy: (r2 as i64 - 500) * 4,
            w: BULLET_WIDTH,
            h: BULLET_HEIGHT,
            hp: BULLET_STRENGTH,
        };
        bullets.push(b);
    }
    let ghost spawned = bullets@;
    assert(forall|k: int| 0 <= k < spawned.len() ==> (#[trigger] spawned[k]).wf());
    move_bullets(bullets);
    let ghost moved = bullets@;
    retain_bullets(bullets);
    proof {
        let kept = bullets@;
        moved.lemma_filter_len(|b: Bullet| live_bullet(b));
        assert forall|k: int| 0 <= k < kept.len() implies (#[trigger] kept[k]).wf() && kept[k].hp > 0 by {
            lemma_filter_elem(moved, |b: Bullet| live_bullet(b), k);
            let i = choose|i: int| 0 <= i < moved.len() && moved[i] == kept[k];
            assert(spawned[i].wf());
        }
    }
}

/// Fires a shot if the ship is shooting, then drops the shots that left the
/// playfield or ran out of hit points and moves the rest. Returns the super
/// time left.
fn advance_shots(shots: &mut Vec<Shot>, ship: &Ship, shooting: bool, super_time: i32) -> (r: i32)
    requires
        shots_ok(old(shots)@),
        ship.wf(),
        0 <= super_time <= SUPER_TIME,
    ensures
        final(shots)@ == shots_in_flight(old(shots)@, shooting, *ship, super_time),
        shots_ok(final(shots)@),
        forall|k: int| 0 <= k < final(shots)@.len() ==> (#[trigger] final(shots)@[k]).hp > 0,
        r == if shooting && super_time > 0 {
            super_time - 1
        } else {
            super_time as int
        },
{
    let ghost s0 = shots@;
    let mut left = super_time;
    if shooting {
        let cx = ship.x + SHIP_WIDTH / 2;
        if super_time > 0 {
            shots.push(
                Shot {
                    x: cx - SUPER_SHOT_WIDTH / 2,
                    y: ship.y,
                    dx: 0,
                    dy: SHOT_SPEED,
                    w: SUPER_SHOT_WIDTH,
                    h: SUPER_SHOT_HEIGHT,
                    hp: SUPER_SHOT_HP,
                    t: ShotType::Super,
                },
            );
            left = super_time - 1;
        } else {
            shots.push(
                Shot {
                    x: cx,
                    y: ship.y,
                    dx: 0,
                    dy: SHOT_SPEED,
                    w: SHOT_WIDTH,
                    h: SHOT_HEIGHT,
                    hp: 1,
                    t: ShotType::Normal,
                },
            );
        }
    }
    let ghost fired = shots@;
    assert(fired == shots_fired(s0, shooting, *ship, super_time));
    assert(forall|k: int| 0 <= k < fired.len() ==> (#[trigger] fired[k]).wf() && fired[k].y <= SHIP_Y);
    assert(spaced(fired)) by {
        assert forall|a: int, b: int| 0 <= a < b < fired.len() implies #[trigger] fired[a].y + SHOT_SPEED
            <= #[trigger] fired[b].y by {
            if b < s0.len() {
                assert(s0[a].y + SHOT_SPEED <= s0[b].y);
            } else {
                assert(s0[a].wf());
            }
        }
    }
    retain_shots(shots);
    let ghost culled = shots@;
    proof {
        assert forall|k: int| 0 <= k < culled.len() implies (#[trigger] culled[k]).wf() && culled[k].y
            <= SHIP_Y && live_shot(culled[k]) by {
            lemma_filter_elem(fired, |s: Shot| live_shot(s), k);
        }
    }
    move_shots(shots);
    let ghost moved = shots@;
    assert(spaced(moved)) by {
        assert forall|a: int, b: int| 0 <= a < b < moved.len() implies #[trigger] moved[a].y + SHOT_SPEED
            <= #[trigger] moved[b].y by {
            assert(culled[a].y + SHOT_SPEED <= culled[b].y);
        }
    }
    assert(forall|k: int|
        0 <= k < moved.len() ==> (#[trigger] moved[k]).wf() && moved[k].hp > 0 && moved[k].y <= SHIP_Y
            - SHOT_SPEED);
    proof {
        lemma_spaced_count(moved);
    }
    left
}

/// Shots against bullets, then shots against the boss.
fn resolve_hits(shots: &mut Vec<Shot>, bullets: &mut Vec<Bullet>, boss: &mut Boss)
    requires
        shots_ok(old(shots)@),
        forall|k: int| 0 <= k < old(shots)@.len() ==> (#[trigger] old(shots)@[k]).hp > 0,
        bullets_ok(old(bullets)@),
        forall|k: int| 0 <= k < old(bullets)@.len() ==> (#[trigger] old(bullets)@[k]).hp > 0,
        old(boss).wf(),
        old(boss).hp >= 1,
    ensures
        final(shots)@ == shots_after_boss(
            shots_after_bullets(old(shots)@, old(bullets)@),
            *old(boss),
        ),
        final(bullets)@ == bullets_after_shots(old(shots)@, old(bullets)@),
        *final(boss) == boss_after_shots(shots_after_bullets(old(shots)@, old(bullets)@), *old(boss)),
        shots_ok(final(shots)@),
        bullets_ok(final(bullets)@),
        final(boss).wf(),
{
    let ghost s0 = shots@;
    let ghost b0 = bullets@;
    let ghost boss0 = *boss;
    collide_shots_bullets(shots, bullets);
    let ghost s1 = shots@;
    proof {
        assert forall|k: int| 0 <= k < s1.len() implies (#[trigger] s1[k]).wf() && s1[k].hp >= 1
            - MAX_BULLET_NUMBER by {
            lemma_bullets_hitting_bounds(s0[k].rect(), b0);
        }
        let bs = bullets@;
        assert forall|j: int| 0 <= j < bs.len() implies (#[trigger] bs[j]).wf() by {
            lemma_shots_hitting_bounds(b0[j].rect(), s0);
        }
    }
    collide_shots_boss(shots, boss);
    proof {
        lemma_shots_hitting_bounds(boss0.rect(), s1);
        let fs = shots@;
        assert forall|k: int| 0 <= k < fs.len() implies (#[trigger] fs[k]).wf() && fs[k].y <= SHIP_Y
            - SHOT_SPEED by {
            assert(s1[k].wf());
        }
        assert(spaced(fs)) by {
            assert forall|a: int, b: int| 0 <= a < b < fs.len() implies #[trigger] fs[a].y + SHOT_SPEED
                <= #[trigger] fs[b].y by {
                assert(s0[a].y + SHOT_SPEED <= s0[b].y);
            }
        }
    }
}

/// Fire-timer bookkeeping of one tick; see `fire_timers`.
pub fn next_timers(shooting: bool, wait: i32, sup: i32, mode: ShotType) -> (r: (i32, i32, ShotType))
    requires
        0 <= wait <= SUPER_WAIT_TIME + 1,
    ensures
        r == fire_timers(shooting, wait, sup, mode),
{
    let mut w = wait;
    let mut s = sup;
    let mut m = mode;
    if !shooting && sup == 0 {
        w = w + 1;
    }
    if w > SUPER_WAIT_TIME {
        s = SUPER_TIME;
        m = ShotType::Super;
    }
    if s <= 1 {
        m = ShotType::Normal;
    }
    if shooting {
        w = 0;
    }
    (w, s, m)
}

impl Game {
    /// One fixed step with the given random draws for the new bullet's
    /// velocity. Nothing changes outside play.
    pub fn update_with(&mut self, now: u64, r1: u32, r2: u32)
        requires
            old(self)@.wf(),
            old(self).start_ms <= now,
            r1 < DRAW_RANGE,
            r2 < DRAW_RANGE,
        ensures
            final(self)@ == tick(old(self)@, now, r1, r2),
            final(self)@.wf(),
    {
        match self.stage {
            Stage::Playing => {},
            _ => {
                return;
            },
        }
        let ghost g = self@;
        self.passed_ms = now - self.start_ms;
        let mut boss = self.bosses[0];
        assert(g.bosses[0].wf());
        advance_bullets(&mut self.bullets, &boss, r1, r2);
        self.super_time = advance_shots(&mut self.shots, &self.ship, self.shooting, self.super_time);
        assert(self.ship.rect().in_range());
        if ship_is_hit(&self.ship, &self.bullets) {
            self.stage = Stage::GameOver;
        }
        resolve_hits(&mut self.shots, &mut self.bullets, &mut boss);
        self.ship.update();
        boss.update();
        if boss.hp <= 0 {
            self.bosses = Vec::new();
            if self.stage == Stage::Playing {
                self.stage = Stage::GameClear;
            }
        } else {
            self.bosses.set(0, boss);
            assert(self.bosses@ =~= seq![boss]);
        }
        let timers = next_timers(self.shooting, self.wait_time, self.super_time, self.ship.t);
        self.wait_time = timers.0;
        self.super_time = timers.1;
        self.ship.t = timers.2;
    }
}

/// The session after the activate event (a pointer press) at time `now`:
/// start play from the title, toggle firing in play, and start over from the
/// title after the game ends either way.
pub open spec fn activated(g: GameView, now: u64) -> GameView {
    match g.stage {
        Stage::Opening => GameView { stage: Stage::Playing, ..g },
        Stage::Playing => GameView { wait_time: 0, shooting: !g.shooting, ..g },
        Stage::GameOver => initial_view(now),
        Stage::GameClear => initial_view(now),
    }
}

/// Seconds and remaining milliseconds of a duration in milliseconds.
pub fn elapsed_parts(ms: u64) -> (r: (u64, u64))
    ensures
        r.0 == ms / 1000,
        r.1 == ms % 1000,
        r.0 * 1000 + r.1 == ms,
{
    (ms / 1000, ms % 1000)
}

impl Game {
    /// A fresh session on the title screen, started at time `now`.
    pub fn new(now: u64) -> (r: Game)
        ensures
            r@ == initial_view(now),
            r@.wf(),
    {
        let mut bosses: Vec<Boss> = Vec::new();
        bosses.push(Boss::new());
        let r = Game {
            stage: Stage::Opening,
            shooting: false,
            wait_time: 0,
            super_time: 0,
            ship: Ship::new(),
            bosses,
            bullets: Vec::new(),
            shots: Vec::new(),
            max_update_ms: 0,
            max_draw_ms: 0,
            passed_ms: 0,
            start_ms: now,
        };
        assert(r@.bosses =~= seq![Boss::initial()]);
        assert(r@.bullets =~= Seq::<Bullet>::empty());
        assert(r@.shots =~= Seq::<Shot>::empty());
        r
    }

    /// Discards everything and starts over on the title screen at time `now`.
    pub fn reset(&mut self, now: u64)
        ensures
            final(self)@ == initial_view(now),
            final(self)@.wf(),
    {
        *self = Game::new(now);
    }

    /// The activate event (a pointer press) at time `now`.
    pub fn shot(&mut self, now: u64)
        requires
            old(self)@.wf(),
        ensures
            final(self)@ == activated(old(self)@, now),
            final(self)@.wf(),
    {
        match self.stage {
            Stage::Opening => {
                self.stage = Stage::Playing;
            },
            Stage::Playing => {
                self.wait_time = 0;
                self.shooting = !self.shooting;
            },
            Stage::GameOver => {
                self.reset(now);
            },
            Stage::GameClear => {
                self.reset(now);
            },
        }
    }

    /// Records the pointer's horizontal position, which the ship follows.
    pub fn mouse_move(&mut self, x: i64)
        requires
            old(self)@.wf(),
            -POINTER_LIMIT <= x <= POINTER_LIMIT,
        ensures
            final(self)@ == (GameView { ship: Ship { mouse_x: x, ..old(self).ship }, ..old(self)@ }),
            final(self)@.wf(),
    {
        self.ship.set_mouse_x(x);
    }

    /// One fixed step at time `now`, drawing the new bullet's velocity at
    /// random.
    pub fn update(&mut self, now: u64)
        requires
            old(self)@.wf(),
            old(self).start_ms <= now,
        ensures
            final(self)@.wf(),
            exists|r1: u32, r2: u32|
                r1 < DRAW_RANGE && r2 < DRAW_RANGE && final(self)@ == tick(old(self)@, now, r1, r2),
    {
        let (r1, r2) = match self.stage {
            Stage::Playing => (draw_direction(), draw_direction()),
            _ => (0, 0),
        };
        self.update_with(now, r1, r2);
    }

    /// Keeps the longest update duration seen, for diagnostics.
    pub fn record_update_time(&mut self, ms: u64)
        ensures
            final(self)@ == (GameView {
                max_update_ms: if ms > old(self).max_update_ms {
                    ms
                } else {
                    old(self).max_update_ms
                },
                ..old(self)@
            }),
    {
        if ms > self.max_update_ms {
            self.max_update_ms = ms;
        }
    }

    /// Keeps the longest draw duration seen, for diagnostics.
    pub fn record_draw_time(&mut self, ms: u64)
        ensures
            final(self)@ == (GameView {
                max_draw_ms: if ms > old(self).max_draw_ms {
                    ms
                } else {
                    old(self).max_draw_ms
                },
                ..old(self)@
            }),
    {
        if ms > self.max_draw_ms {
            self.max_draw_ms = ms;
        }
    }
}

} // verus!
