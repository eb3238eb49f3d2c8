//! What holds of the game whatever is played: statements over the models of the
//! other modules, each proved here.

use vstd::prelude::*;
use crate::asteriods::{
    approach_speed, dimmed, faded, AsteriodBundle, ParticleView, SpawnerView, ASTERIOD_DIFFICULTY,
    ASTERIOD_MARGIN, ASTERIOD_SPREAD, SPAWN_PERIOD, SPAWN_PERIOD_OUTSIDE,
};
use crate::clock::{fraction_left, lemma_fraction_range, ticked, TimerView};
use crate::collision::{
    after_bullets, after_missiles, burst_at, can_resolve, hits, resolved, shrunk, spark_at, struck,
    unhurt, Strike, KILL_BURST,
};
use crate::components::{aged, Bullet, Missile, Mortal, Score};
use crate::fixed::ONE;
use crate::geometry::{distance_squared, Vec3};
use crate::lifetime::survivors;
use crate::safezone::zone_checked;

verus! {

/// What is left of a table after the frames in `deltas`, one after the other.
pub open spec fn after_frames<T: Mortal>(items: Seq<T>, deltas: Seq<u64>) -> Seq<T>
    decreases deltas.len(),
{
    if deltas.len() == 0 {
        items
    } else {
        survivors(after_frames(items, deltas.drop_last()), deltas.last() as int)
    }
}

/// The time that the frames in `deltas` take together.
pub open spec fn total(deltas: Seq<u64>) -> int
    decreases deltas.len(),
{
    if deltas.len() == 0 {
        0
    } else {
        total(deltas.drop_last()) + deltas.last()
    }
}

/// The time of the first frames never exceeds the time of all of them: time only
/// goes on.
pub proof fn law_time_goes_on(deltas: Seq<u64>, k: int)
    requires
        0 <= k <= deltas.len(),
    ensures
        0 <= total(deltas.take(k)) <= total(deltas),
    decreases deltas.len(),
{
    if deltas.len() == 0 {
        assert(deltas.take(k) == deltas);
    } else if k == deltas.len() {
        assert(deltas.take(k) == deltas);
        law_time_goes_on(deltas.drop_last(), k - 1);
    } else {
        assert(deltas.drop_last().take(k) == deltas.take(k));
        law_time_goes_on(deltas.drop_last(), k);
    }
}

/// An entity with `item.lifetime()` to live is there after a run of frames exactly
/// if the frames together took no longer than that, and is then older by their
/// time. So once time has gone past its lifetime it is gone, it goes in one frame
/// only, and it is not seen again.
pub proof fn law_lifetime_runs_out<T: Mortal>(item: T, deltas: Seq<u64>)
    requires
        item.lifetime().0 >= 0,
    ensures
        total(deltas) > item.lifetime().0 ==> after_frames(seq![item], deltas) == Seq::<T>::empty(),
        total(deltas) <= item.lifetime().0 ==> {
            &&& after_frames(seq![item], deltas).len() == 1
            &&& after_frames(seq![item], deltas)[0].lifetime().0 == item.lifetime().0 - total(deltas)
        },
    decreases deltas.len(),
{
    if deltas.len() > 0 {
        let earlier = deltas.drop_last();
        law_lifetime_runs_out(item, earlier);
        law_time_goes_on(earlier, 0);
        let before = after_frames(seq![item], earlier);
        let delta = deltas.last() as int;
        if total(earlier) <= item.lifetime().0 {
            // One entity is left, and this frame decides over it.
            let it = before[0];
            assert(before.drop_last() == Seq::<T>::empty());
            assert(before.last() == it);
            assert(survivors(before.drop_last(), delta) == Seq::<T>::empty());
            if !it.lifetime().expires(delta) {
                it.lemma_lifetime_kept(it.lifetime().after(delta));
                assert(survivors(before, delta) == seq![aged(it, delta)]);
            }
        }
    }
}

/// Nothing comes back: a frame leaves at most as many entities as it found.
pub proof fn law_no_return<T: Mortal>(items: Seq<T>, delta: int)
    ensures
        survivors(items, delta).len() <= items.len(),
    decreases items.len(),
{
    if items.len() > 0 {
        law_no_return(items.drop_last(), delta);
    }
}

/// What is left of the particles after the frames in `deltas`, one after the other.
pub open spec fn after_fades(items: Seq<ParticleView>, deltas: Seq<u64>) -> Seq<ParticleView>
    decreases deltas.len(),
{
    if deltas.len() == 0 {
        items
    } else {
        faded(after_fades(items, deltas.drop_last()), deltas.last() as int)
    }
}

/// A particle whose fade is under way is there after a run of frames exactly if the
/// frames together have not brought the fade to its end; and it is then drawn as
/// opaque as the part of the fade that is left. So it is removed in the frame in
/// which the fade ends, not before, and once.
pub proof fn law_fade_runs_out(p: ParticleView, deltas: Seq<u64>)
    requires
        !p.timer.paused,
        !p.timer.repeating,
        !p.timer.finished,
        p.timer.elapsed < p.timer.duration,
    ensures
        p.timer.elapsed + total(deltas) >= p.timer.duration ==> after_fades(seq![p], deltas)
            == Seq::<ParticleView>::empty(),
        p.timer.elapsed + total(deltas) < p.timer.duration ==> {
            &&& after_fades(seq![p], deltas).len() == 1
            &&& after_fades(seq![p], deltas)[0].timer == (TimerView {
                elapsed: (p.timer.elapsed + total(deltas)) as nat,
                ..p.timer
            })
            &&& deltas.len() > 0 ==> after_fades(seq![p], deltas)[0].opacity == fraction_left(
                after_fades(seq![p], deltas)[0].timer,
            )
        },
    decreases deltas.len(),
{
    if deltas.len() > 0 {
        let earlier = deltas.drop_last();
        law_fade_runs_out(p, earlier);
        law_time_goes_on(earlier, 0);
        let before = after_fades(seq![p], earlier);
        let delta = deltas.last() as int;
        if p.timer.elapsed + total(earlier) < p.timer.duration {
            // One particle is left, and this frame decides over it.
            let it = before[0];
            assert(before.drop_last() == Seq::<ParticleView>::empty());
            assert(before.last() == it);
            assert(faded(before.drop_last(), delta) == Seq::<ParticleView>::empty());
            if !ticked(it.timer, delta as nat).finished {
                lemma_fraction_range(ticked(it.timer, delta as nat));
                assert(faded(before, delta) == seq![dimmed(it, delta)]);
            }
        }
    }
}

/// Whatever a frame leaves was there before it, and is older by the frame's time.
pub proof fn law_survivors_were_there<T: Mortal>(items: Seq<T>, delta: int)
    ensures
        forall|i: int|
            0 <= i < survivors(items, delta).len() ==> exists|j: int|
                0 <= j < items.len() && !(#[trigger] items[j]).lifetime().expires(delta)
                    && #[trigger] survivors(items, delta)[i] == aged(items[j], delta),
    decreases items.len(),
{
    if items.len() > 0 {
        let earlier = items.drop_last();
        law_survivors_were_there(earlier, delta);
        assert forall|i: int| 0 <= i < survivors(items, delta).len() implies exists|j: int|
            0 <= j < items.len() && !(#[trigger] items[j]).lifetime().expires(delta)
                && #[trigger] survivors(items, delta)[i] == aged(items[j], delta) by {
            if i < survivors(earlier, delta).len() {
                let j = choose|j: int|
                    0 <= j < earlier.len() && !(#[trigger] earlier[j]).lifetime().expires(delta)
                        && survivors(earlier, delta)[i] == aged(earlier[j], delta);
                assert(items[j] == earlier[j]);
                assert(survivors(items, delta)[i] == survivors(earlier, delta)[i]);
            } else {
                let j = items.len() - 1;
                assert(items[j] == items.last());
            }
        }
    }
}

/// Bullets only take health away, and earn no points.
pub proof fn lemma_bullets_only_hurt(a: AsteriodBundle, start: Strike, bullets: Seq<Bullet>)
    ensures
        after_bullets(a, start, bullets).health <= start.health,
        after_bullets(a, start, bullets).points == start.points,
        after_bullets(a, start, bullets).overkilled == start.overkilled,
        after_bullets(a, start, bullets).missiles == start.missiles,
    decreases bullets.len(),
{
    if bullets.len() > 0 {
        lemma_bullets_only_hurt(a, start, bullets.drop_last());
    }
}

/// Missiles only take health away, and take no points back.
pub proof fn lemma_missiles_only_hurt(a: AsteriodBundle, start: Strike, missiles: Seq<Missile>)
    ensures
        after_missiles(a, start, missiles).health <= start.health,
        after_missiles(a, start, missiles).points >= start.points,
        after_missiles(a, start, missiles).bullets == start.bullets,
    decreases missiles.len(),
{
    if missiles.len() > 0 {
        lemma_missiles_only_hurt(a, start, missiles.drop_last());
    }
}

/// The points that missiles earn on an asteroid only grow as more missiles are
/// tried.
pub proof fn lemma_missile_points_grow(a: AsteriodBundle, start: Strike, missiles: Seq<Missile>, k: int)
    requires
        0 <= k <= missiles.len(),
    ensures
        after_missiles(a, start, missiles.take(k)).points <= after_missiles(a, start, missiles).points,
    decreases missiles.len() - k,
{
    if k == missiles.len() {
        assert(missiles.take(k) == missiles);
    } else {
        lemma_missile_points_grow(a, start, missiles, k + 1);
        assert(missiles.take(k + 1).drop_last() == missiles.take(k));
    }
}

/// The points of a pass only grow as more asteroids have their turn.
pub proof fn lemma_pass_points_grow(
    asteroids: Seq<AsteriodBundle>,
    bullets: Seq<Bullet>,
    missiles: Seq<Missile>,
    k: int,
)
    requires
        0 <= k <= asteroids.len(),
    ensures
        resolved(asteroids.take(k), bullets, missiles).points <= resolved(
            asteroids,
            bullets,
            missiles,
        ).points,
    decreases asteroids.len() - k,
{
    if k == asteroids.len() {
        assert(asteroids.take(k) == asteroids);
    } else {
        lemma_pass_points_grow(asteroids, bullets, missiles, k + 1);
        assert(asteroids.take(k + 1).drop_last() == asteroids.take(k));
        let before = resolved(asteroids.take(k), bullets, missiles);
        law_health_never_grows(asteroids.take(k + 1).last(), before.sparks, before.bullets, before.missiles);
    }
}

/// Missiles earn at most a point each, and only those that are spent earn one.
pub proof fn lemma_missiles_earn_once(a: AsteriodBundle, start: Strike, missiles: Seq<Missile>)
    ensures
        after_missiles(a, start, missiles).points + after_missiles(a, start, missiles).missiles.len()
            <= start.points + start.missiles.len() + missiles.len(),
    decreases missiles.len(),
{
    if missiles.len() > 0 {
        lemma_missiles_earn_once(a, start, missiles.drop_last());
    }
}

/// A pass earns at most a point for every asteroid and a point for every missile.
pub proof fn law_points_have_room(
    asteroids: Seq<AsteriodBundle>,
    bullets: Seq<Bullet>,
    missiles: Seq<Missile>,
)
    ensures
        0 <= resolved(asteroids, bullets, missiles).points,
        resolved(asteroids, bullets, missiles).points + resolved(
            asteroids,
            bullets,
            missiles,
        ).missiles.len() <= asteroids.len() + missiles.len(),
    decreases asteroids.len(),
{
    if asteroids.len() > 0 {
        let earlier = asteroids.drop_last();
        law_points_have_room(earlier, bullets, missiles);
        let p = resolved(earlier, bullets, missiles);
        let a = asteroids.last();
        let start = unhurt(a.health.0 as int, p.sparks);
        lemma_bullets_only_hurt(a, start, p.bullets);
        lemma_missiles_earn_once(a, after_bullets(a, start, p.bullets), p.missiles);
        law_health_never_grows(a, p.sparks, p.bullets, p.missiles);
    }
}

/// An asteroid's health never grows in a pass.
pub proof fn law_health_never_grows(
    a: AsteriodBundle,
    sparks: Seq<Vec3>,
    bullets: Seq<Bullet>,
    missiles: Seq<Missile>,
)
    ensures
        struck(a, sparks, bullets, missiles).health <= a.health.0,
        struck(a, sparks, bullets, missiles).points >= 0,
{
    let start = unhurt(a.health.0 as int, sparks);
    lemma_bullets_only_hurt(a, start, bullets);
    lemma_missiles_only_hurt(a, after_bullets(a, start, bullets), missiles);
}

/// After a pass every asteroid that is left has health left, and is drawn with a
/// radius of exactly its health and the margin.
pub proof fn law_radius_follows_health(
    asteroids: Seq<AsteriodBundle>,
    bullets: Seq<Bullet>,
    missiles: Seq<Missile>,
)
    requires
        can_resolve(asteroids),
    ensures
        resolved(asteroids, bullets, missiles).points >= 0,
        resolved(asteroids, bullets, missiles).asteroids.len() <= asteroids.len(),
        forall|i: int|
            0 <= i < resolved(asteroids, bullets, missiles).asteroids.len() ==> {
                let left = #[trigger] resolved(asteroids, bullets, missiles).asteroids[i];
                left.health.0 > 0 && left.radius == left.health.0 + ASTERIOD_MARGIN
            },
    decreases asteroids.len(),
{
    if asteroids.len() > 0 {
        let earlier = asteroids.drop_last();
        assert(can_resolve(earlier)) by {
            assert forall|i: int| 0 <= i < earlier.len() implies (#[trigger] earlier[i]).health.0
                + ASTERIOD_MARGIN <= i64::MAX by {
            }
        }
        law_radius_follows_health(earlier, bullets, missiles);
        let p = resolved(earlier, bullets, missiles);
        let a = asteroids.last();
        law_health_never_grows(a, p.sparks, p.bullets, p.missiles);
    }
}

/// Whether `left` is the asteroid `was` after it lost health: with no more health
/// than it had, drawn to match, and otherwise the same.
pub open spec fn worn(left: AsteriodBundle, was: AsteriodBundle) -> bool {
    left.health.0 <= was.health.0 && left == shrunk(was, left.health.0 as int)
}

/// Every asteroid that a pass leaves was there before it, has no more health than
/// it had, and has changed in nothing but its health and the radius it is drawn
/// with. So an asteroid's health only falls, until the asteroid is removed.
pub proof fn law_asteroids_only_shrink(
    asteroids: Seq<AsteriodBundle>,
    bullets: Seq<Bullet>,
    missiles: Seq<Missile>,
)
    ensures
        forall|i: int|
            0 <= i < resolved(asteroids, bullets, missiles).asteroids.len() ==> exists|j: int|
                0 <= j < asteroids.len() && worn(
                    #[trigger] resolved(asteroids, bullets, missiles).asteroids[i],
                    #[trigger] asteroids[j],
                ),
    decreases asteroids.len(),
{
    if asteroids.len() > 0 {
        let earlier = asteroids.drop_last();
        law_asteroids_only_shrink(earlier, bullets, missiles);
        let before = resolved(earlier, bullets, missiles);
        let after = resolved(asteroids, bullets, missiles);
        let a = asteroids.last();
        law_health_never_grows(a, before.sparks, before.bullets, before.missiles);
        assert forall|i: int| 0 <= i < after.asteroids.len() implies exists|j: int|
            0 <= j < asteroids.len() && worn(#[trigger] after.asteroids[i], #[trigger] asteroids[j]) by {
            if i < before.asteroids.len() {
                let j = choose|j: int|
                    0 <= j < earlier.len() && worn(before.asteroids[i], #[trigger] earlier[j]);
                assert(asteroids[j] == earlier[j]);
                assert(after.asteroids[i] == before.asteroids[i]);
            } else {
                let j = asteroids.len() - 1;
                assert(asteroids[j] == a);
                assert(worn(after.asteroids[i], asteroids[j]));
            }
        }
    }
}

/// A shot that is as far from an asteroid's centre as its radius and the pad, or
/// farther, does not hit it.
pub proof fn law_hit_is_strict(shot: Vec3, a: AsteriodBundle)
    requires
        distance_squared(shot, a.transform.translation) >= (a.radius + 10_000) * (a.radius + 10_000),
    ensures
        !hits(shot, a),
{
}

/// Whether none of the shots at the places `shots` hits any of the asteroids.
pub open spec fn all_miss(places: Seq<Vec3>, asteroids: Seq<AsteriodBundle>) -> bool {
    forall|i: int, j: int|
        0 <= i < asteroids.len() && 0 <= j < places.len() ==> !hits(
            #[trigger] places[j],
            #[trigger] asteroids[i],
        )
}

/// Where the bullets are.
pub open spec fn bullet_places(bullets: Seq<Bullet>) -> Seq<Vec3> {
    bullets.map_values(|b: Bullet| b.transform.translation)
}

/// Where the missiles are.
pub open spec fn missile_places(missiles: Seq<Missile>) -> Seq<Vec3> {
    missiles.map_values(|m: Missile| m.transform.translation)
}

/// Bullets that all miss an asteroid leave it as it was, and stay.
pub proof fn lemma_bullets_miss(a: AsteriodBundle, start: Strike, bullets: Seq<Bullet>)
    requires
        forall|j: int| 0 <= j < bullets.len() ==> !hits((#[trigger] bullets[j]).transform.translation, a),
    ensures
        after_bullets(a, start, bullets) == (Strike { bullets: start.bullets + bullets, ..start }),
    decreases bullets.len(),
{
    if bullets.len() > 0 {
        let earlier = bullets.drop_last();
        assert forall|j: int| 0 <= j < earlier.len() implies !hits(
            (#[trigger] earlier[j]).transform.translation,
            a,
        ) by {}
        lemma_bullets_miss(a, start, earlier);
        assert((start.bullets + earlier).push(bullets.last()) == start.bullets + bullets);
    }
}

/// Missiles that all miss an asteroid leave it as it was, and stay.
pub proof fn lemma_missiles_miss(a: AsteriodBundle, start: Strike, missiles: Seq<Missile>)
    requires
        forall|j: int|
            0 <= j < missiles.len() ==> !hits((#[trigger] missiles[j]).transform.translation, a),
    ensures
        after_missiles(a, start, missiles) == (Strike { missiles: start.missiles + missiles, ..start }),
    decreases missiles.len(),
{
    if missiles.len() > 0 {
        let earlier = missiles.drop_last();
        assert forall|j: int| 0 <= j < earlier.len() implies !hits(
            (#[trigger] earlier[j]).transform.translation,
            a,
        ) by {}
        lemma_missiles_miss(a, start, earlier);
        assert((start.missiles + earlier).push(missiles.last()) == start.missiles + missiles);
    }
}

/// Whether every asteroid has health and is drawn to match it.
pub open spec fn all_sound(asteroids: Seq<AsteriodBundle>) -> bool {
    forall|i: int| 0 <= i < asteroids.len() ==> (#[trigger] asteroids[i]).wf() && asteroids[i].health.0 > 0
}

/// A pass in which no shot is close enough to any asteroid triggers nothing: every
/// shot stays and no particle flies. If the asteroids were sound, they stay as
/// they are and no point is earned.
pub proof fn law_miss_changes_nothing(
    asteroids: Seq<AsteriodBundle>,
    bullets: Seq<Bullet>,
    missiles: Seq<Missile>,
)
    requires
        all_miss(bullet_places(bullets), asteroids),
        all_miss(missile_places(missiles), asteroids),
    ensures
        resolved(asteroids, bullets, missiles).bullets == bullets,
        resolved(asteroids, bullets, missiles).missiles == missiles,
        resolved(asteroids, bullets, missiles).sparks == Seq::<Vec3>::empty(),
        all_sound(asteroids) ==> resolved(asteroids, bullets, missiles).asteroids == asteroids
            && resolved(asteroids, bullets, missiles).points == 0,
    decreases asteroids.len(),
{
    if asteroids.len() == 0 {
        assert(asteroids == Seq::<AsteriodBundle>::empty());
    } else {
        let earlier = asteroids.drop_last();
        let a = asteroids.last();
        assert(all_miss(bullet_places(bullets), earlier)) by {
            assert forall|i: int, j: int|
                0 <= i < earlier.len() && 0 <= j < bullet_places(bullets).len() implies !hits(
                #[trigger] bullet_places(bullets)[j],
                #[trigger] earlier[i],
            ) by {
                assert(earlier[i] == asteroids[i]);
            }
        }
        assert(all_miss(missile_places(missiles), earlier)) by {
            assert forall|i: int, j: int|
                0 <= i < earlier.len() && 0 <= j < missile_places(missiles).len() implies !hits(
                #[trigger] missile_places(missiles)[j],
                #[trigger] earlier[i],
            ) by {
                assert(earlier[i] == asteroids[i]);
            }
        }
        law_miss_changes_nothing(earlier, bullets, missiles);
        // The shots that are left when the last asteroid's turn comes are all of them,
        // and none of them hits it.
        assert(a == asteroids[asteroids.len() - 1]);
        assert forall|j: int| 0 <= j < bullets.len() implies !hits(
            (#[trigger] bullets[j]).transform.translation,
            a,
        ) by {
            assert(bullet_places(bullets)[j] == bullets[j].transform.translation);
        }
        assert forall|j: int| 0 <= j < missiles.len() implies !hits(
            (#[trigger] missiles[j]).transform.translation,
            a,
        ) by {
            assert(missile_places(missiles)[j] == missiles[j].transform.translation);
        }
        let start = unhurt(a.health.0 as int, Seq::empty());
        lemma_bullets_miss(a, start, bullets);
        lemma_missiles_miss(a, after_bullets(a, start, bullets), missiles);
        assert(Seq::<Bullet>::empty() + bullets == bullets);
        assert(Seq::<Missile>::empty() + missiles == missiles);
        if all_sound(asteroids) {
            assert(all_sound(earlier)) by {
                assert forall|i: int| 0 <= i < earlier.len() implies (#[trigger] earlier[i]).wf()
                    && earlier[i].health.0 > 0 by {
                    assert(earlier[i] == asteroids[i]);
                }
            }
            assert(shrunk(a, a.health.0 as int) == a);
            assert(earlier.push(a) == asteroids);
        }
    }
}

/// The bullet rule, for one bullet that hits one asteroid: the asteroid loses the
/// bullet's damage, the bullet is spent and one particle flies where it was. If
/// that leaves the asteroid health, it stays and is drawn to match; if not, it is
/// removed, for one point.
pub proof fn law_bullet_hit(a: AsteriodBundle, b: Bullet)
    requires
        a.health.0 + ASTERIOD_MARGIN <= i64::MAX,
        hits(b.transform.translation, a),
    ensures
        ({
            let p = resolved(seq![a], seq![b], Seq::empty());
            let left = a.health.0 - b.damage.damage;
            &&& p.bullets == Seq::<Bullet>::empty()
            &&& p.missiles == Seq::<Missile>::empty()
            &&& p.sparks == seq![spark_at(b.transform.translation)]
            &&& left > 0 ==> {
                &&& p.asteroids == seq![shrunk(a, left)]
                &&& p.asteroids[0].health.0 == left
                &&& p.asteroids[0].radius == left + ASTERIOD_MARGIN
                &&& p.points == 0
            }
            &&& left <= 0 ==> p.asteroids == Seq::<AsteriodBundle>::empty() && p.points == 1
        }),
{
    let asteroids = seq![a];
    let bullets = seq![b];
    let none = Seq::<AsteriodBundle>::empty();
    let place = spark_at(b.transform.translation);
    // Before the asteroid's turn nothing has happened.
    assert(asteroids.drop_last() == none);
    assert(asteroids.last() == a);
    let first = resolved(none, bullets, Seq::empty());
    assert(first.sparks == Seq::<Vec3>::empty() && first.bullets == bullets);
    // The one bullet hits it, and there is no missile.
    let start = unhurt(a.health.0 as int, first.sparks);
    assert(bullets.drop_last() == Seq::<Bullet>::empty());
    assert(bullets.last() == b);
    assert(after_bullets(a, start, bullets.drop_last()) == start);
    let hit = after_bullets(a, start, bullets);
    assert(hit.sparks == seq![place]);
    assert(after_missiles(a, hit, Seq::empty()) == hit);
    if hit.health > 0 {
        assert(none.push(shrunk(a, hit.health)) == seq![shrunk(a, hit.health)]);
    }
}

/// The missile rule, for one missile that hits one asteroid. If the asteroid's
/// health is less than twice the missile's damage, the asteroid is removed in that
/// pass, exactly one point is earned and ten particles fly. Otherwise the asteroid
/// loses the missile's damage and, if that leaves it health, stays and is drawn to
/// match, no point is earned and one particle flies. The missile is spent either
/// way.
pub proof fn law_missile_overkill(a: AsteriodBundle, m: Missile)
    requires
        a.health.0 + ASTERIOD_MARGIN <= i64::MAX,
        hits(m.transform.translation, a),
    ensures
        ({
            let p = resolved(seq![a], Seq::empty(), seq![m]);
            let place = spark_at(m.transform.translation);
            &&& p.missiles == Seq::<Missile>::empty()
            &&& p.bullets == Seq::<Bullet>::empty()
            &&& a.health.0 < 2 * m.damage.damage ==> {
                &&& p.asteroids == Seq::<AsteriodBundle>::empty()
                &&& p.points == 1
                &&& p.sparks == burst_at(place, KILL_BURST as nat)
            }
            &&& a.health.0 >= 2 * m.damage.damage && a.health.0 - m.damage.damage > 0 ==> {
                &&& p.asteroids == seq![shrunk(a, a.health.0 - m.damage.damage)]
                &&& p.asteroids[0].health.0 == a.health.0 - m.damage.damage
                &&& p.asteroids[0].radius == a.health.0 - m.damage.damage + ASTERIOD_MARGIN
                &&& p.points == 0
                &&& p.sparks == seq![place]
            }
        }),
{
    let asteroids = seq![a];
    let missiles = seq![m];
    let none = Seq::<AsteriodBundle>::empty();
    let place = spark_at(m.transform.translation);
    // Before the asteroid's turn nothing has happened.
    assert(asteroids.drop_last() == none);
    assert(asteroids.last() == a);
    let first = resolved(none, Seq::empty(), missiles);
    assert(first.sparks == Seq::<Vec3>::empty() && first.missiles == missiles);
    // No bullet touches it, and the one missile does.
    let start = unhurt(a.health.0 as int, first.sparks);
    assert(after_bullets(a, start, Seq::empty()) == start);
    assert(missiles.drop_last() == Seq::<Missile>::empty());
    assert(missiles.last() == m);
    assert(after_missiles(a, start, missiles.drop_last()) == start);
    let s = struck(a, first.sparks, first.bullets, first.missiles);
    assert(s == after_missiles(a, start, missiles));
    if a.health.0 < 2 * m.damage.damage {
        assert(s.sparks == burst_at(place, KILL_BURST as nat));
    } else {
        assert(s.sparks == seq![place]);
        assert(none.push(shrunk(a, s.health)) == seq![shrunk(a, s.health)]);
    }
}

/// The game grows harder with the score: at a higher score a new asteroid flies
/// no slower, and the same roll gives it no less health.
pub proof fn law_harder_with_score(lower: Score, higher: Score, roll: int)
    requires
        lower.0 <= higher.0,
        0 <= roll < ONE,
    ensures
        approach_speed(lower) <= approach_speed(higher),
        AsteriodBundle::health_for(lower, roll) <= AsteriodBundle::health_for(higher, roll),
{
    let low = 100_000 * (lower.0 + 40);
    let high = 100_000 * (higher.0 + 40);
    assert(low * roll <= high * roll) by (nonlinear_arith)
        requires
            low <= high,
            0 <= roll,
    ;
    assert(ASTERIOD_SPREAD * (lower.0 + 2 * ASTERIOD_DIFFICULTY) * roll == low * roll);
    assert(ASTERIOD_SPREAD * (higher.0 + 2 * ASTERIOD_DIFFICULTY) * roll == high * roll);
    assert(ASTERIOD_DIFFICULTY * ONE == 20_000_000);
}

/// The spawner's period follows the ship: once its place was checked, a sound
/// spawner's timer runs for half a second if the ship is outside the safe zone, and
/// for two seconds if it is not; and the spawner is still sound.
pub proof fn law_spawn_cadence(spawner: SpawnerView, is_outside: bool)
    requires
        spawner.timer.duration == spawner.current_duration,
    ensures
        zone_checked(spawner, is_outside).timer.duration == if is_outside {
            SPAWN_PERIOD_OUTSIDE
        } else {
            SPAWN_PERIOD
        },
        zone_checked(spawner, is_outside).current_duration == zone_checked(
            spawner,
            is_outside,
        ).timer.duration,
        zone_checked(spawner, is_outside).timer.elapsed == spawner.timer.elapsed,
{
}

} // verus!
