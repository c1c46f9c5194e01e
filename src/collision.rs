use vstd::prelude::*;
use crate::geometry::{Rect, overlap};
use crate::entity::{Boss, Bullet, Character, Shot};

verus! {

/// Number of bullets in `bs` whose box overlaps `r`.
pub open spec fn bullets_hitting(r: Rect, bs: Seq<Bullet>) -> int
    decreases bs.len(),
{
    if bs.len() == 0 {
        0
    } else {
        bullets_hitting(r, bs.drop_last()) + if overlap(r, bs.last().rect()) {
            1int
        } else {
            0int
        }
    }
}

/// Number of shots in `ss` whose box overlaps `r`.
pub open spec fn shots_hitting(r: Rect, ss: Seq<Shot>) -> int
    decreases ss.len(),
{
    if ss.len() == 0 {
        0
    } else {
        shots_hitting(r, ss.drop_last()) + if overlap(ss.last().rect(), r) {
            1int
        } else {
            0int
        }
    }
}

/// Each shot loses one hit point per bullet it overlaps.
pub open spec fn shots_after_bullets(ss: Seq<Shot>, bs: Seq<Bullet>) -> Seq<Shot> {
    Seq::new(
        ss.len(),
        |i: int| Shot { hp: (ss[i].hp - bullets_hitting(ss[i].rect(), bs)) as i32, ..ss[i] },
    )
}

/// Each bullet loses one hit point per shot that overlaps it.
pub open spec fn bullets_after_shots(ss: Seq<Shot>, bs: Seq<Bullet>) -> Seq<Bullet> {
    Seq::new(
        bs.len(),
        |j: int| Bullet { hp: (bs[j].hp - shots_hitting(bs[j].rect(), ss)) as i32, ..bs[j] },
    )
}

/// Each shot that overlaps the boss loses one hit point.
pub open spec fn shots_after_boss(ss: Seq<Shot>, boss: Boss) -> Seq<Shot> {
    Seq::new(
        ss.len(),
        |i: int|
            Shot {
                hp: (ss[i].hp - if overlap(ss[i].rect(), boss.rect()) {
                    1int
                } else {
                    0int
                }) as i32,
                ..ss[i]
            },
    )
}

/// The boss loses one hit point per shot that overlaps it.
pub open spec fn boss_after_shots(ss: Seq<Shot>, boss: Boss) -> Boss {
    Boss { hp: (boss.hp - shots_hitting(boss.rect(), ss)) as i32, ..boss }
}

pub proof fn lemma_bullets_hitting_bounds(r: Rect, bs: Seq<Bullet>)
    ensures
        0 <= bullets_hitting(r, bs) <= bs.len(),
    decreases bs.len(),
{
    if bs.len() > 0 {
        lemma_bullets_hitting_bounds(r, bs.drop_last());
    }
}

pub proof fn lemma_shots_hitting_bounds(r: Rect, ss: Seq<Shot>)
    ensures
        0 <= shots_hitting(r, ss) <= ss.len(),
    decreases ss.len(),
{
    if ss.len() > 0 {
        lemma_shots_hitting_bounds(r, ss.drop_last());
    }
}

/// Hit points of shots and bullets stay within these bounds while they collide.
pub open spec fn collidable(ss: Seq<Shot>, bs: Seq<Bullet>) -> bool {
    &&& ss.len() <= 1000
    &&& bs.len() <= 1000
    &&& forall|i: int| 0 <= i < ss.len() ==> (#[trigger] ss[i]).rect().in_range()
    &&& forall|i: int| 0 <= i < ss.len() ==> -10_000 <= (#[trigger] ss[i]).hp <= 10_000
    &&& forall|j: int| 0 <= j < bs.len() ==> (#[trigger] bs[j]).rect().in_range()
    &&& forall|j: int| 0 <= j < bs.len() ==> -10_000 <= (#[trigger] bs[j]).hp <= 10_000
}

/// Every overlapping (shot, bullet) pair costs both one hit point.
pub fn collide_shots_bullets(shots: &mut Vec<Shot>, bullets: &mut Vec<Bullet>)
    requires
        collidable(old(shots)@, old(bullets)@),
    ensures
        final(shots)@ == shots_after_bullets(old(shots)@, old(bullets)@),
        final(bullets)@ == bullets_after_shots(old(shots)@, old(bullets)@),
{
    let ghost ss0 = shots@;
    let ghost bs0 = bullets@;
    let n = shots.len();
    let m = bullets.len();
    let mut i: usize = 0;
    while i < n
        invariant
            n == ss0.len(),
            m == bs0.len(),
            i <= n,
            collidable(ss0, bs0),
            shots@.len() == n,
            bullets@.len() == m,
            forall|k: int| 0 <= k < i ==> shots@[k] == #[trigger] shots_after_bullets(ss0, bs0)[k],
            forall|k: int| i <= k < n ==> shots@[k] == ss0[k],
            forall|j: int|
                0 <= j < m ==> bullets@[j] == (Bullet {
                    hp: (bs0[j].hp - shots_hitting(bs0[j].rect(), ss0.take(i as int))) as i32,
                    ..bs0[j]
                }),
        decreases n - i,
    {
        let ghost r = shots@[i as int].rect();
        let mut j: usize = 0;
        while j < m
            invariant
                n == ss0.len(),
                m == bs0.len(),
                i < n,
                j <= m,
                collidable(ss0, bs0),
                r == ss0[i as int].rect(),
                shots@.len() == n,
                bullets@.len() == m,
                forall|k: int| 0 <= k < i ==> shots@[k] == #[trigger] shots_after_bullets(ss0, bs0)[k],
                forall|k: int| i < k < n ==> shots@[k] == ss0[k],
                shots@[i as int] == (Shot {
                    hp: (ss0[i as int].hp - bullets_hitting(r, bs0.take(j as int))) as i32,
                    ..ss0[i as int]
                }),
                0 <= bullets_hitting(r, bs0.take(j as int)) <= j,
                forall|jj: int|
                    0 <= jj < j ==> bullets@[jj] == (Bullet {
                        hp: (bs0[jj].hp - shots_hitting(bs0[jj].rect(), ss0.take(i + 1))) as i32,
                        ..bs0[jj]
                    }),
                forall|jj: int|
                    j <= jj < m ==> bullets@[jj] == (Bullet {
                        hp: (bs0[jj].hp - shots_hitting(bs0[jj].rect(), ss0.take(i as int))) as i32,
                        ..bs0[jj]
                    }),
            decreases m - j,
        {
            proof {
                assert(bs0.take(j + 1).drop_last() =~= bs0.take(j as int));
                assert(ss0.take(i + 1).drop_last() =~= ss0.take(i as int));
                lemma_shots_hitting_bounds(bs0[j as int].rect(), ss0.take(i as int));
            }
            let s_now = shots[i];
            let b_now = bullets[j];
            if s_now.hit(&b_now.bounds()) {
                let mut s = shots[i];
                s.hp = s.hp - 1;
                shots.set(i, s);
                let mut b = bullets[j];
                b.hp = b.hp - 1;
                bullets.set(j, b);
            }
            j = j + 1;
        }
        proof {
            assert(bs0.take(m as int) =~= bs0);
        }
        i = i + 1;
    }
    proof {
        assert(ss0.take(n as int) =~= ss0);
        assert(shots@ =~= shots_after_bullets(ss0, bs0));
        assert(bullets@ =~= bullets_after_shots(ss0, bs0));
    }
}

/// Every shot that overlaps the boss costs both one hit point.
pub fn collide_shots_boss(shots: &mut Vec<Shot>, boss: &mut Boss)
    requires
        old(shots)@.len() <= 1000,
        forall|i: int| 0 <= i < old(shots)@.len() ==> (#[trigger] old(shots)@[i]).rect().in_range(),
        forall|i: int| 0 <= i < old(shots)@.len() ==> -10_000 <= (#[trigger] old(shots)@[i]).hp <= 10_000,
        old(boss).rect().in_range(),
        -10_000 <= old(boss).hp <= 10_000,
    ensures
        final(shots)@ == shots_after_boss(old(shots)@, *old(boss)),
        *final(boss) == boss_after_shots(old(shots)@, *old(boss)),
{
    let ghost ss0 = shots@;
    let ghost b0 = *boss;
    let n = shots.len();
    let mut i: usize = 0;
    while i < n
        invariant
            n == ss0.len(),
            n <= 1000,
            i <= n,
            boss.rect() == b0.rect(),
            b0.rect().in_range(),
            forall|k: int| 0 <= k < n ==> (#[trigger] ss0[k]).rect().in_range(),
            forall|k: int| 0 <= k < n ==> -10_000 <= (#[trigger] ss0[k]).hp <= 10_000,
            -10_000 <= b0.hp <= 10_000,
            shots@.len() == n,
            forall|k: int| 0 <= k < i ==> shots@[k] == #[trigger] shots_after_boss(ss0, b0)[k],
            forall|k: int| i <= k < n ==> shots@[k] == ss0[k],
            *boss == (Boss { hp: (b0.hp - shots_hitting(b0.rect(), ss0.take(i as int))) as i32, ..b0 }),
            0 <= shots_hitting(b0.rect(), ss0.take(i as int)) <= i,
        decreases n - i,
    {
        proof {
            assert(ss0.take(i + 1).drop_last() =~= ss0.take(i as int));
            assert(ss0[i as int].rect().in_range());
            assert(-10_000 <= ss0[i as int].hp);
        }
        let s_now = shots[i];
        if s_now.hit(&boss.bounds()) {
            let mut s = shots[i];
            s.hp = s.hp - 1;
            shots.set(i, s);
            boss.hp = boss.hp - 1;
        }
        i = i + 1;
    }
    proof {
        assert(ss0.take(n as int) =~= ss0);
        assert(shots@ =~= shots_after_boss(ss0, b0));
    }
}

} // verus!
