//! What happens when shots meet asteroids, and when an asteroid meets the ship.

use vstd::prelude::*;
use crate::asteriods::{shrink_asteriod, AsteriodBundle, ParticleBundle, ASTERIOD_MARGIN};
use crate::asteriods::particles_in_range;
use crate::components::{Bullet, Health, Missile, Player, Score, Scoreboard, PARTICLE_Z_OFFSET};
use crate::geometry::{closer_than, within, Vec3};
use crate::laws::{
    law_health_never_grows, law_points_have_room, law_radius_follows_health,
    lemma_missile_points_grow, lemma_pass_points_grow,
};
use crate::scoreboard::decimal;

verus! {

/// How far beyond an asteroid's radius a shot still hits it.
pub const HIT_PAD: i64 = 10_000;

/// How many particles fly when a missile destroys an asteroid outright.
pub const KILL_BURST: usize = 10;

/// Whether a shot at `shot` hits the asteroid: when it is closer to the asteroid's
/// centre than the asteroid's radius and the pad.
pub open spec fn hits(shot: Vec3, a: AsteriodBundle) -> bool {
    closer_than(shot, a.transform.translation, a.radius + HIT_PAD)
}

/// Whether the ship touches the asteroid: when their centres are closer than their
/// radii together.
pub open spec fn touches(player: Player, a: AsteriodBundle) -> bool {
    closer_than(player.transform.translation, a.transform.translation, player.radius + a.radius)
}

/// Where the particle of a hit at `shot` appears: there, on the particles' layer.
pub open spec fn spark_at(shot: Vec3) -> Vec3 {
    Vec3 { z: PARTICLE_Z_OFFSET, ..shot }
}

/// What one asteroid has taken so far in a pass, and what is left of the shots.
pub struct Strike {
    /// The asteroid's health after the hits so far.
    pub health: int,
    /// The points that missiles have earned on it.
    pub points: int,
    /// Whether a missile has destroyed it outright.
    pub overkilled: bool,
    /// Where particles are due.
    pub sparks: Seq<Vec3>,
    /// The bullets that have not hit.
    pub bullets: Seq<Bullet>,
    /// The missiles that have not hit.
    pub missiles: Seq<Missile>,
}

/// The state of a pass over the asteroids.
pub struct Pass {
    /// The asteroids that are left, as they are left.
    pub asteroids: Seq<AsteriodBundle>,
    /// The bullets that have not hit.
    pub bullets: Seq<Bullet>,
    /// The missiles that have not hit.
    pub missiles: Seq<Missile>,
    /// The points earned.
    pub points: int,
    /// Where particles are due, in the order of the hits.
    pub sparks: Seq<Vec3>,
}

/// The asteroid `a` of health `health` before any shot is tried on it.
pub open spec fn unhurt(health: int, sparks: Seq<Vec3>) -> Strike {
    Strike {
        health,
        points: 0,
        overkilled: false,
        sparks,
        bullets: Seq::empty(),
        missiles: Seq::empty(),
    }
}

/// The asteroid after the bullets in `bullets` were tried on it in their order:
/// each that hits takes its damage from the asteroid, leaves one particle and is
/// spent; the others stay.
pub open spec fn after_bullets(a: AsteriodBundle, start: Strike, bullets: Seq<Bullet>) -> Strike
    decreases bullets.len(),
{
    if bullets.len() == 0 {
        start
    } else {
        let s = after_bullets(a, start, bullets.drop_last());
        let b = bullets.last();
        if hits(b.transform.translation, a) {
            Strike {
                health: s.health - b.damage.damage,
                sparks: s.sparks.push(spark_at(b.transform.translation)),
                ..s
            }
        } else {
            Strike { bullets: s.bullets.push(b), ..s }
        }
    }
}

/// `n` particles at one place.
pub open spec fn burst_at(place: Vec3, n: nat) -> Seq<Vec3> {
    Seq::new(n, |i: int| place)
}

/// The asteroid after the missiles in `missiles` were tried on it in their order.
/// A missile that hits is spent. If the health it finds is less than twice its
/// damage, it destroys the asteroid outright: it takes twice its damage, earns a
/// point and leaves ten particles. Otherwise it takes its damage and leaves one.
pub open spec fn after_missiles(a: AsteriodBundle, start: Strike, missiles: Seq<Missile>) -> Strike
    decreases missiles.len(),
{
    if missiles.len() == 0 {
        start
    } else {
        let s = after_missiles(a, start, missiles.drop_last());
        let m = missiles.last();
        if !hits(m.transform.translation, a) {
            Strike { missiles: s.missiles.push(m), ..s }
        } else if s.health < 2 * m.damage.damage {
            Strike {
                health: s.health - 2 * m.damage.damage,
                points: s.points + 1,
                overkilled: true,
                sparks: s.sparks + burst_at(spark_at(m.transform.translation), KILL_BURST as nat),
                ..s
            }
        } else {
            Strike {
                health: s.health - m.damage.damage,
                sparks: s.sparks.push(spark_at(m.transform.translation)),
                ..s
            }
        }
    }
}

/// One asteroid after all bullets, then all missiles, were tried on it.
pub open spec fn struck(
    a: AsteriodBundle,
    sparks: Seq<Vec3>,
    bullets: Seq<Bullet>,
    missiles: Seq<Missile>,
) -> Strike {
    after_missiles(a, after_bullets(a, unhurt(a.health.0 as int, sparks), bullets), missiles)
}

/// The asteroid as it goes on after a pass that left it `health`: with that
/// health, and drawn to match.
pub open spec fn shrunk(a: AsteriodBundle, health: int) -> AsteriodBundle {
    AsteriodBundle { health: Health(health as i64), radius: (health + ASTERIOD_MARGIN) as i64, ..a }
}

/// A pass over `asteroids` in their order, against the shots given. Each asteroid
/// is struck by the shots that are left when its turn comes. One that is left
/// without health is removed, and earns a point unless a missile has earned one by
/// destroying it outright; one that has health left stays, and is drawn to match.
pub open spec fn resolved(asteroids: Seq<AsteriodBundle>, bullets: Seq<Bullet>, missiles: Seq<Missile>) -> Pass
    decreases asteroids.len(),
{
    if asteroids.len() == 0 {
        Pass { asteroids: Seq::empty(), bullets, missiles, points: 0, sparks: Seq::empty() }
    } else {
        let p = resolved(asteroids.drop_last(), bullets, missiles);
        let a = asteroids.last();
        let s = struck(a, p.sparks, p.bullets, p.missiles);
        Pass {
            asteroids: if s.health <= 0 {
                p.asteroids
            } else {
                p.asteroids.push(shrunk(a, s.health))
            },
            bullets: s.bullets,
            missiles: s.missiles,
            points: p.points + s.points + if s.health <= 0 && !s.overkilled {
                1int
            } else {
                0int
            },
            sparks: s.sparks,
        }
    }
}

/// Whether the score has room for the points that a pass earns.
pub open spec fn has_room(
    score: Score,
    asteroids: Seq<AsteriodBundle>,
    bullets: Seq<Bullet>,
    missiles: Seq<Missile>,
) -> bool {
    score.0 + resolved(asteroids, bullets, missiles).points <= u32::MAX
}

/// Whether a pass can be made over these asteroids: each must have room for the
/// margin above its health.
pub open spec fn can_resolve(asteroids: Seq<AsteriodBundle>) -> bool {
    forall|i: int| 0 <= i < asteroids.len() ==> (#[trigger] asteroids[i]).health.0 + ASTERIOD_MARGIN <= i64::MAX
}

/// Tells whether a pass can be made over these asteroids.
pub fn asteroids_fit(asteroids: &Vec<AsteriodBundle>) -> (fits: bool)
    ensures
        fits == can_resolve(asteroids@),
{
    let mut i: usize = 0;
    while i < asteroids.len()
        invariant
            i <= asteroids.len(),
            forall|j: int|
                0 <= j < i ==> (#[trigger] asteroids@[j]).health.0 + ASTERIOD_MARGIN <= i64::MAX,
        decreases asteroids.len() - i,
    {
        if asteroids[i].health.0 > i64::MAX - ASTERIOD_MARGIN {
            return false;
        }
        i += 1;
    }
    true
}

/// Tells whether the score has room for a point from every asteroid and every
/// missile, which is as many as a pass can earn whatever the bullets do.
pub fn score_has_room(score: &Score, asteroids: &Vec<AsteriodBundle>, missiles: &Vec<Missile>) -> (room: bool)
    ensures
        room == (score.0 + asteroids@.len() + missiles@.len() <= u32::MAX),
        room ==> forall|bullets: Seq<Bullet>| #[trigger] has_room(*score, asteroids@, bullets, missiles@),
{
    proof {
        assert forall|bullets: Seq<Bullet>|
            resolved(asteroids@, bullets, missiles@).points <= asteroids@.len() + missiles@.len() by {
            law_points_have_room(asteroids@, bullets, missiles@);
        }
    }
    let most: u128 = score.0 as u128 + asteroids.len() as u128 + missiles.len() as u128;
    most <= u32::MAX as u128
}

/// Tells whether a shot at `shot` hits the asteroid.
pub fn shot_hits(shot: &Vec3, a: &AsteriodBundle) -> (hit: bool)
    ensures
        hit == hits(*shot, *a),
{
    within(shot, &a.transform.translation, a.radius, HIT_PAD)
}

/// Tells whether the ship touches the asteroid.
pub fn player_touches(player: &Player, a: &AsteriodBundle) -> (hit: bool)
    ensures
        hit == touches(*player, *a),
{
    within(&player.transform.translation, &a.transform.translation, player.radius, a.radius)
}

/// Tries every bullet on the asteroid. Gives the health that is left.
fn strike_with_bullets(a: &AsteriodBundle, bullets: &mut Vec<Bullet>, sparks: &mut Vec<Vec3>) -> (health: i128)
    ensures
        ({
            let s = after_bullets(*a, unhurt(a.health.0 as int, old(sparks)@), old(bullets)@);
            &&& health == s.health
            &&& final(bullets)@ == s.bullets
            &&& final(sparks)@ == s.sparks
            &&& s.points == 0
            &&& !s.overkilled
            &&& s.missiles == Seq::<Missile>::empty()
        }),
        -0x10_0000_0000_0000_0000_0000_0000 <= health <= a.health.0,
{
    let ghost start = unhurt(a.health.0 as int, sparks@);
    let mut all: Vec<Bullet> = Vec::new();
    core::mem::swap(bullets, &mut all);
    let ghost before = all@;
    assert(before.len() == all.len());
    let mut health: i128 = a.health.0 as i128;
    for bullet in it: all
        invariant
            it.seq() == before,
            before.len() <= usize::MAX,
            a.health.0 - 0x1_0000_0000 * it.index() <= health <= a.health.0,
            ({
                let s = after_bullets(*a, start, before.take(it.index() as int));
                &&& health == s.health
                &&& bullets@ == s.bullets
                &&& sparks@ == s.sparks
                &&& s.points == 0
                &&& !s.overkilled
                &&& s.missiles == Seq::<Missile>::empty()
            }),
    {
        assert(before.take(it.index() + 1).drop_last() == before.take(it.index() as int));
        if shot_hits(&bullet.transform.translation, a) {
            health = health - bullet.damage.damage as i128;
            sparks.push(Vec3 { z: PARTICLE_Z_OFFSET, ..bullet.transform.translation });
        } else {
            bullets.push(bullet);
        }
    }
    assert(before.take(before.len() as int) == before);
    health
}

/// Adds `n` particles at one place.
fn add_burst(sparks: &mut Vec<Vec3>, place: Vec3, n: usize)
    ensures
        final(sparks)@ == old(sparks)@ + burst_at(place, n as nat),
{
    let mut i: usize = 0;
    while i < n
        invariant
            i <= n,
            sparks@ == old(sparks)@ + burst_at(place, i as nat),
        decreases n - i,
    {
        sparks.push(place);
        i += 1;
    }
}

/// Tries every missile on the asteroid, which the bullets have left `health`.
/// Gives the health that is left and whether a missile destroyed the asteroid
/// outright.
fn strike_with_missiles(
    a: &AsteriodBundle,
    Ghost(start): Ghost<Strike>,
    health: i128,
    score: &mut Score,
    missiles: &mut Vec<Missile>,
    sparks: &mut Vec<Vec3>,
) -> (end: (i128, bool))
    requires
        health == start.health,
        old(sparks)@ == start.sparks,
        start.points == 0,
        !start.overkilled,
        start.missiles == Seq::<Missile>::empty(),
        -0x10_0000_0000_0000_0000_0000_0000 <= health <= a.health.0,
        old(score).0 + after_missiles(*a, start, old(missiles)@).points <= u32::MAX,
    ensures
        ({
            let s = after_missiles(*a, start, old(missiles)@);
            &&& end.0 == s.health
            &&& end.1 == s.overkilled
            &&& final(missiles)@ == s.missiles
            &&& final(sparks)@ == s.sparks
            &&& s.bullets == start.bullets
            &&& s.points >= 0
            &&& final(score).0 == old(score).0 + s.points
        }),
        end.0 <= a.health.0,
{
    let mut all: Vec<Missile> = Vec::new();
    core::mem::swap(missiles, &mut all);
    let ghost before = all@;
    assert(before.len() == all.len());
    let mut health = health;
    let mut overkilled = false;
    for missile in it: all
        invariant
            it.seq() == before,
            before.len() <= usize::MAX,
            start.health - 0x2_0000_0000 * it.index() <= health <= a.health.0,
            -0x10_0000_0000_0000_0000_0000_0000 <= start.health,
            ({
                let s = after_missiles(*a, start, before.take(it.index() as int));
                &&& health == s.health
                &&& overkilled == s.overkilled
                &&& missiles@ == s.missiles
                &&& sparks@ == s.sparks
                &&& s.bullets == start.bullets
                &&& s.points >= 0
                &&& score.0 == old(score).0 + s.points
            }),
            old(score).0 + after_missiles(*a, start, before).points <= u32::MAX,
    {
        assert(before.take(it.index() + 1).drop_last() == before.take(it.index() as int));
        proof {
            lemma_missile_points_grow(*a, start, before, it.index() + 1);
        }
        if !shot_hits(&missile.transform.translation, a) {
            missiles.push(missile);
        } else {
            let damage = missile.damage.damage as i128;
            let place = Vec3 { z: PARTICLE_Z_OFFSET, ..missile.transform.translation };
            if health < 2 * damage {
                score.award();
                health = health - 2 * damage;
                overkilled = true;
                add_burst(sparks, place, KILL_BURST);
            } else {
                health = health - damage;
                sparks.push(place);
            }
        }
    }
    assert(before.take(before.len() as int) == before);
    (health, overkilled)
}

/// Makes one pass over the asteroids against the bullets and missiles: applies
/// every hit, removes the shots that hit and the asteroids that are destroyed,
/// awards the points, and redraws the asteroids that are left. Gives the places
/// where particles are due.
pub fn resolve_collisions(
    score: &mut Score,
    asteroids: &mut Vec<AsteriodBundle>,
    bullets: &mut Vec<Bullet>,
    missiles: &mut Vec<Missile>,
) -> (sparks: Vec<Vec3>)
    requires
        can_resolve(old(asteroids)@),
        has_room(*old(score), old(asteroids)@, old(bullets)@, old(missiles)@),
    ensures
        ({
            let p = resolved(old(asteroids)@, old(bullets)@, old(missiles)@);
            &&& final(asteroids)@ == p.asteroids
            &&& final(bullets)@ == p.bullets
            &&& final(missiles)@ == p.missiles
            &&& sparks@ == p.sparks
            &&& final(score).0 == old(score).0 + p.points
        }),
        forall|i: int|
            0 <= i < final(asteroids)@.len() ==> (#[trigger] final(asteroids)@[i]).health.0 > 0
                && final(asteroids)@[i].wf(),
{
    proof {
        law_radius_follows_health(old(asteroids)@, old(bullets)@, old(missiles)@);
    }
    let mut sparks: Vec<Vec3> = Vec::new();
    let mut all: Vec<AsteriodBundle> = Vec::new();
    core::mem::swap(asteroids, &mut all);
    let ghost before = all@;
    for asteroid in it: all
        invariant
            it.seq() == before,
            can_resolve(before),
            ({
                let p = resolved(before.take(it.index() as int), old(bullets)@, old(missiles)@);
                &&& asteroids@ == p.asteroids
                &&& bullets@ == p.bullets
                &&& missiles@ == p.missiles
                &&& sparks@ == p.sparks
                &&& p.points >= 0
                &&& score.0 == old(score).0 + p.points
            }),
            old(score).0 + resolved(before, old(bullets)@, old(missiles)@).points <= u32::MAX,
    {
        assert(before.take(it.index() + 1).drop_last() == before.take(it.index() as int));
        assert(asteroid == before[it.index() as int]);
        let ghost unhit = unhurt(asteroid.health.0 as int, sparks@);
        let ghost hit = after_bullets(asteroid, unhit, bullets@);
        proof {
            // What this asteroid earns is part of what the whole pass earns.
            lemma_pass_points_grow(before, old(bullets)@, old(missiles)@, it.index() + 1);
            law_health_never_grows(asteroid, sparks@, bullets@, missiles@);
        }
        let health = strike_with_bullets(&asteroid, bullets, &mut sparks);
        let (health, overkilled) = strike_with_missiles(
            &asteroid,
            Ghost(hit),
            health,
            score,
            missiles,
            &mut sparks,
        );
        if health <= 0 {
            if !overkilled {
                score.award();
            }
        } else {
            let mut left = asteroid;
            left.health = Health(health as i64);
            shrink_asteriod(&left.health, &mut left.radius);
            asteroids.push(left);
        }
    }
    assert(before.take(before.len() as int) == before);
    sparks
}

/// The score after the ship was checked against the asteroids: nothing, if it
/// touches one.
pub open spec fn score_after_contact(score: Score, player: Player, asteroids: Seq<AsteriodBundle>) -> Score {
    if exists|i: int| 0 <= i < asteroids.len() && touches(player, #[trigger] asteroids[i]) {
        Score(0)
    } else {
        score
    }
}

/// Shows the score on the label, then takes all points away if the ship touches
/// an asteroid.
pub fn update_score(
    score: &mut Score,
    scoreboard: &mut Scoreboard,
    player: &Player,
    asteroids: &Vec<AsteriodBundle>,
)
    ensures
        *final(score) == score_after_contact(*old(score), *player, asteroids@),
        final(scoreboard).transform == old(scoreboard).transform,
        final(scoreboard).text@ == decimal(old(score).0 as nat),
{
    scoreboard.show(score);
    let mut touched = false;
    let mut i: usize = 0;
    while i < asteroids.len()
        invariant
            i <= asteroids.len(),
            touched == exists|j: int| 0 <= j < i && touches(*player, #[trigger] asteroids@[j]),
        decreases asteroids.len() - i,
    {
        if player_touches(player, &asteroids[i]) {
            touched = true;
        }
        i += 1;
    }
    if touched {
        score.reset();
    }
}

/// Runs the pass of `resolve_collisions` and lets a particle fly from each place
/// where one is due, in a random direction.
pub fn handle_asteriod_bullet_collision(
    score: &mut Score,
    asteroids: &mut Vec<AsteriodBundle>,
    bullets: &mut Vec<Bullet>,
    missiles: &mut Vec<Missile>,
    particles: &mut Vec<ParticleBundle>,
)
    requires
        can_resolve(old(asteroids)@),
        has_room(*old(score), old(asteroids)@, old(bullets)@, old(missiles)@),
        particles_in_range(old(particles)@),
    ensures
        ({
            let p = resolved(old(asteroids)@, old(bullets)@, old(missiles)@);
            &&& final(asteroids)@ == p.asteroids
            &&& final(bullets)@ == p.bullets
            &&& final(missiles)@ == p.missiles
            &&& final(score).0 == old(score).0 + p.points
            &&& sparked(old(particles)@, final(particles)@, p.sparks)
        }),
        forall|i: int|
            0 <= i < final(asteroids)@.len() ==> (#[trigger] final(asteroids)@[i]).health.0 > 0
                && final(asteroids)@[i].wf(),
        particles_in_range(final(particles)@),
{
    let sparks = resolve_collisions(score, asteroids, bullets, missiles);
    let ghost first = particles@.len() as int;
    assert(particles@.take(first) == particles@);
    let mut i: usize = 0;
    while i < sparks.len()
        invariant
            i <= sparks.len(),
            first == old(particles)@.len(),
            sparked(old(particles)@, particles@, sparks@.take(i as int)),
            particles_in_range(particles@),
        decreases sparks.len() - i,
    {
        let ghost so_far = particles@;
        let particle = ParticleBundle::new(sparks[i]);
        particles.push(particle);
        i += 1;
        proof {
            assert(particles@.take(first) == so_far.take(first));
            assert forall|j: int| first <= j < particles@.len() implies ParticleBundle::bursts_at(
                (#[trigger] particles@[j])@,
                sparks@.take(i as int)[j - first],
            ) by {
                if j < particles@.len() - 1 {
                    assert(particles@[j] == so_far[j]);
                    assert(sparks@.take(i as int)[j - first] == sparks@.take(i - 1)[j - first]);
                }
            }
        }
    }
    assert(sparks@.take(sparks.len() as int) == sparks@);
}

/// Whether the particles in `after` are those in `before` and then one new
/// particle at each place of `sparks`, in their order.
pub open spec fn sparked(before: Seq<ParticleBundle>, after: Seq<ParticleBundle>, sparks: Seq<Vec3>) -> bool {
    &&& after.len() == before.len() + sparks.len()
    &&& after.take(before.len() as int) == before
    &&& forall|j: int|
        before.len() <= j < after.len() ==> ParticleBundle::bursts_at(
            (#[trigger] after[j])@,
            sparks[j - before.len()],
        )
}

} // verus!
