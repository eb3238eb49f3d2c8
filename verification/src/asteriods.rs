//! Asteroids and the particles they shed: how they are made, spawned and faded.

use vstd::prelude::*;
use bevy::time::Timer;
use crate::chance::{choose_area, random_in};
use crate::clock::{
    fraction_left, fresh, lemma_ticked_in_range, ticked, timer_duration, timer_duration_nanos,
    timer_elapsed_nanos, timer_fits, timer_in_range, timer_is_finished, timer_new, timer_paused,
    timer_repeat, timer_repeating, timer_tick, timer_view, TimerView,
};
use crate::components::{Health, Lifetime, Mortal, Moving, Score, Spinning, Velocity};
use crate::fixed::ONE;
use crate::geometry::{direction, scaled, Facing, Transform, Vec2, Vec3, REACH};

verus! {

/// The score that adds one asteroid's worth of speed and health: lower is harder.
pub const ASTERIOD_DIFFICULTY: i64 = 20;

/// The least health of a new asteroid while there is no score; its speed, too.
pub const ASTERIOD_BASE: i64 = 50_000;

/// Half the range of a new asteroid's health while there is no score.
pub const ASTERIOD_SPREAD: i64 = 100_000;

/// How much larger than its health an asteroid is drawn, so that it never
/// vanishes to a point.
pub const ASTERIOD_MARGIN: i64 = 20_000;

/// How long an asteroid lasts: twenty seconds.
pub const ASTERIOD_LIFETIME: i64 = 20_000_000_000;

/// The time between two asteroids inside the safe zone: two seconds.
pub const SPAWN_PERIOD: u64 = 2_000_000_000;

/// The time between two asteroids outside the safe zone: half a second.
pub const SPAWN_PERIOD_OUTSIDE: u64 = 500_000_000;

/// How far beyond the edge of the view the spawn bands begin.
pub const BAND_NEAR: i64 = 100_000;

/// How far beyond the edge of the view the spawn bands end.
pub const BAND_FAR: i64 = 200_000;

/// The farthest from the origin, along each axis, that asteroids are spawned
/// around the ship.
pub const FIELD_LIMIT: i64 = 0x4000_0000_0000_0000;

/// How fast a particle flies.
pub const PARTICLE_SPEED: i64 = 100_000;

/// How large a particle is drawn.
pub const PARTICLE_SIZE: i64 = 10_000;

/// How long a particle takes to fade: half a second.
pub const PARTICLE_FADE: u64 = 500_000_000;

/// When the next asteroid comes.
pub struct AsteriodSpawner {
    pub timer: Timer,
    /// The period, in nanoseconds, that the timer was last set to.
    pub current_duration: u64,
}

/// The spawner as a plain value.
pub struct SpawnerView {
    pub timer: TimerView,
    pub current_duration: u64,
}

/// An asteroid.
#[derive(Clone, Copy, Debug, PartialEq, Eq, Structural)]
pub struct AsteriodBundle {
    /// The renderer's handle for this entity, once it has one. Never read here.
    pub entity: Option<u64>,
    pub health: Health,
    pub spinning: Spinning,
    pub velocity: Velocity,
    pub lifetime: Lifetime,
    pub transform: Transform,
    /// The radius the asteroid is drawn and hit with.
    pub radius: i64,
}

/// The countdown of an entity that fades away.
pub struct FadeOut {
    pub timer: Timer,
}

/// A particle: it flies off, fades and is gone.
pub struct ParticleBundle {
    /// The renderer's handle for this entity, once it has one. Never read here.
    pub entity: Option<u64>,
    pub spinning: Spinning,
    pub velocity: Velocity,
    pub fadeout: FadeOut,
    pub transform: Transform,
    pub size: i64,
    /// How opaque the particle is drawn, in millionths.
    pub opacity: i64,
}

/// A particle as a plain value.
pub struct ParticleView {
    pub entity: Option<u64>,
    pub spinning: Spinning,
    pub velocity: Velocity,
    pub timer: TimerView,
    pub transform: Transform,
    pub size: i64,
    pub opacity: i64,
}

/// A rectangle beside the view in which an asteroid may appear: `x_min <= x < x_max`
/// and `y_min <= y < y_max`.
#[derive(Clone, Copy, Debug, PartialEq, Eq, Structural)]
pub struct SpawnArea {
    pub x_min: i64,
    pub x_max: i64,
    pub y_min: i64,
    pub y_max: i64,
}

impl View for AsteriodSpawner {
    type V = SpawnerView;

    open spec fn view(&self) -> SpawnerView {
        SpawnerView { timer: timer_view(self.timer), current_duration: self.current_duration }
    }
}

impl View for ParticleBundle {
    type V = ParticleView;

    open spec fn view(&self) -> ParticleView {
        ParticleView {
            entity: self.entity,
            spinning: self.spinning,
            velocity: self.velocity,
            timer: timer_view(self.fadeout.timer),
            transform: self.transform,
            size: self.size,
            opacity: self.opacity,
        }
    }
}

impl AsteriodSpawner {
    /// A spawner is sound when the period it remembers is the one its timer runs
    /// with, and that timer repeats, runs and can be driven.
    pub open spec fn wf(&self) -> bool {
        &&& timer_duration(self.timer) == self.current_duration
        &&& timer_repeating(self.timer)
        &&& !timer_paused(self.timer)
        &&& timer_in_range(self.timer)
    }

    /// The spawner as the game starts: an asteroid every two seconds.
    pub fn new() -> (s: AsteriodSpawner)
        ensures
            s@ == (SpawnerView {
                timer: fresh(SPAWN_PERIOD as nat, true),
                current_duration: SPAWN_PERIOD,
            }),
            s.wf(),
    {
        let mut timer = timer_new(SPAWN_PERIOD);
        timer_repeat(&mut timer);
        AsteriodSpawner { timer, current_duration: SPAWN_PERIOD }
    }
}

impl AsteriodBundle {
    /// The health of a new asteroid, which grows with the score: from 50 units
    /// times `score / 20 + 1` up to, but not reaching, 100 units times
    /// `score / 20 + 2` more, as the roll goes from nothing to one.
    pub open spec fn health_for(score: Score, roll: int) -> int {
        (ASTERIOD_BASE * (score.0 + ASTERIOD_DIFFICULTY)) / (ASTERIOD_DIFFICULTY as int) + (
        ASTERIOD_SPREAD * (score.0 + 2 * ASTERIOD_DIFFICULTY) * roll) / (ASTERIOD_DIFFICULTY * ONE)
    }

    /// The asteroid that a roll gives at a score: placed at `position` and not
    /// turned, moving at `velocity`, drawn larger than its health by the margin,
    /// and with twenty seconds to live.
    pub open spec fn spawned(score: Score, roll: int, position: Vec3, velocity: Vec2) -> AsteriodBundle {
        AsteriodBundle {
            entity: None,
            health: Health(Self::health_for(score, roll) as i64),
            spinning: Spinning { speed: 0 },
            velocity: Velocity(velocity),
            lifetime: Lifetime(ASTERIOD_LIFETIME),
            transform: Transform { translation: position, rotation: Facing::spec_identity() },
            radius: (Self::health_for(score, roll) + ASTERIOD_MARGIN) as i64,
        }
    }

    /// An asteroid is sound when it is drawn exactly the margin larger than its
    /// health.
    pub open spec fn wf(&self) -> bool {
        self.radius == self.health.0 + ASTERIOD_MARGIN
    }

    /// Makes the asteroid that `roll`, a number of millionths below one, gives at
    /// `score`.
    pub fn from_roll(score: &Score, roll: i64, position: Vec3, velocity: Vec2) -> (a: AsteriodBundle)
        requires
            0 <= roll < ONE,
        ensures
            a == Self::spawned(*score, roll as int, position, velocity),
            a.wf(),
    {
        proof {
            lemma_health_range(*score, roll as int);
        }
        let s = score.0 as i128;
        let least = (ASTERIOD_BASE as i128 * (s + ASTERIOD_DIFFICULTY as i128)) / ASTERIOD_DIFFICULTY as i128;
        let spread = ASTERIOD_SPREAD as i128 * (s + 2 * ASTERIOD_DIFFICULTY as i128);
        assert(0 <= spread * roll <= spread * 1_000_000) by (nonlinear_arith)
            requires
                0 <= roll < 1_000_000,
                spread >= 0,
        ;
        let health = least + (spread * roll as i128) / (ASTERIOD_DIFFICULTY as i128 * ONE as i128);
        AsteriodBundle {
            entity: None,
            health: Health(health as i64),
            spinning: Spinning { speed: 0 },
            velocity: Velocity(velocity),
            lifetime: Lifetime(ASTERIOD_LIFETIME),
            transform: Transform::from_translation(position),
            radius: (health + ASTERIOD_MARGIN as i128) as i64,
        }
    }

    /// Makes an asteroid for `score` with a health drawn at random.
    pub fn new(score: &Score, position: Vec3, velocity: Vec2) -> (a: AsteriodBundle)
        ensures
            exists|roll: int|
                0 <= roll < ONE && a == #[trigger] Self::spawned(*score, roll, position, velocity),
            a.wf(),
    {
        let roll = random_in(0, ONE);
        Self::from_roll(score, roll, position, velocity)
    }
}

/// The health of a new asteroid lies between the least and the greatest that its
/// score allows.
pub proof fn lemma_health_range(score: Score, roll: int)
    requires
        0 <= roll < ONE,
    ensures
        2_500 * (score.0 + 20) <= AsteriodBundle::health_for(score, roll),
        AsteriodBundle::health_for(score, roll) < 2_500 * (score.0 + 20) + 5_000 * (score.0 + 40),
        AsteriodBundle::health_for(score, roll) <= 0x2000_0000_0000,
{
    let spread = ASTERIOD_SPREAD * (score.0 + 2 * ASTERIOD_DIFFICULTY);
    assert(0 <= spread * roll < spread * 1_000_000) by (nonlinear_arith)
        requires
            0 <= roll < 1_000_000,
            spread > 0,
    ;
    assert(ASTERIOD_DIFFICULTY * ONE == 20_000_000);
}

impl Moving for AsteriodBundle {
    open spec fn transform(&self) -> Transform {
        self.transform
    }

    open spec fn velocity(&self) -> Velocity {
        self.velocity
    }

    open spec fn with_transform(self, t: Transform) -> Self {
        AsteriodBundle { transform: t, ..self }
    }

    fn advance(&mut self, delta: u64) {
        self.transform.advance(self.velocity.0, delta);
    }
}

impl Mortal for AsteriodBundle {
    open spec fn lifetime(&self) -> Lifetime {
        self.lifetime
    }

    open spec fn with_lifetime(self, l: Lifetime) -> Self {
        AsteriodBundle { lifetime: l, ..self }
    }

    proof fn lemma_lifetime_kept(self, l: Lifetime) {
    }

    fn age(&mut self, delta: u64) -> (expired: bool) {
        self.lifetime.tick(delta)
    }
}

/// Sets the radius that an asteroid is drawn with to its health and the margin.
pub fn shrink_asteriod(health: &Health, radius: &mut i64)
    requires
        health.0 + ASTERIOD_MARGIN <= i64::MAX,
    ensures
        *final(radius) == health.0 + ASTERIOD_MARGIN,
{
    *radius = health.0 + ASTERIOD_MARGIN;
}

impl SpawnArea {
    /// Whether the point `(x, y)` lies in the area.
    pub open spec fn holds(self, x: int, y: int) -> bool {
        self.x_min <= x < self.x_max && self.y_min <= y < self.y_max
    }
}

/// Whether asteroids can be spawned around a ship at `center`: the bands beside
/// its view must have coordinates.
pub open spec fn in_field(center: Vec3) -> bool {
    &&& -FIELD_LIMIT <= center.x <= FIELD_LIMIT
    &&& -FIELD_LIMIT <= center.y <= FIELD_LIMIT
}

/// Tells whether asteroids can be spawned around a ship at `center`.
pub fn fits_field(center: &Vec3) -> (fits: bool)
    ensures
        fits == in_field(*center),
{
    -FIELD_LIMIT <= center.x && center.x <= FIELD_LIMIT && -FIELD_LIMIT <= center.y && center.y
        <= FIELD_LIMIT
}

/// The four bands in which asteroids appear: left and right of a view of
/// `width` by `height` centred at `center`, then above and below it, each
/// reaching from 100 to 200 units beyond its edge.
pub open spec fn spawn_areas(center: Vec3, width: int, height: int) -> Seq<SpawnArea> {
    let left = center.x - width / 2;
    let right = left + width;
    let bottom = center.y - height / 2;
    let top = bottom + height;
    seq![
        SpawnArea {
            x_min: (left - BAND_FAR) as i64,
            x_max: (left - BAND_NEAR) as i64,
            y_min: bottom as i64,
            y_max: top as i64,
        },
        SpawnArea {
            x_min: (right + BAND_NEAR) as i64,
            x_max: (right + BAND_FAR) as i64,
            y_min: bottom as i64,
            y_max: top as i64,
        },
        SpawnArea {
            x_min: left as i64,
            x_max: right as i64,
            y_min: (top + BAND_NEAR) as i64,
            y_max: (top + BAND_FAR) as i64,
        },
        SpawnArea {
            x_min: left as i64,
            x_max: right as i64,
            y_min: (bottom - BAND_FAR) as i64,
            y_max: (bottom - BAND_NEAR) as i64,
        },
    ]
}

/// Lists the four spawn bands around a view.
pub fn list_spawn_areas(center: &Vec3, width: u32, height: u32) -> (areas: Vec<SpawnArea>)
    requires
        in_field(*center),
    ensures
        areas@ == spawn_areas(*center, width as int, height as int),
{
    let left: i64 = center.x - (width / 2) as i64;
    let right: i64 = left + width as i64;
    let bottom: i64 = center.y - (height / 2) as i64;
    let top: i64 = bottom + height as i64;
    let mut areas: Vec<SpawnArea> = Vec::new();
    areas.push(
        SpawnArea { x_min: left - BAND_FAR, x_max: left - BAND_NEAR, y_min: bottom, y_max: top },
    );
    areas.push(
        SpawnArea { x_min: right + BAND_NEAR, x_max: right + BAND_FAR, y_min: bottom, y_max: top },
    );
    areas.push(
        SpawnArea { x_min: left, x_max: right, y_min: top + BAND_NEAR, y_max: top + BAND_FAR },
    );
    areas.push(
        SpawnArea { x_min: left, x_max: right, y_min: bottom - BAND_FAR, y_max: bottom - BAND_NEAR },
    );
    areas
}

/// How fast a new asteroid flies: 50 units a second times `score / 20 + 1`.
pub open spec fn approach_speed(score: Score) -> int {
    (ASTERIOD_BASE * (score.0 + ASTERIOD_DIFFICULTY)) / (ASTERIOD_DIFFICULTY as int)
}

/// The velocity of an asteroid that starts at `from` and makes for `to`.
pub open spec fn approach(from: Vec3, to: Vec3, score: Score) -> Vec2 {
    let d = direction(to.x - from.x, to.y - from.y, approach_speed(score));
    Vec2 { x: d.0 as i64, y: d.1 as i64 }
}

/// Computes the velocity of an asteroid that starts at `from` and makes for `to`,
/// which must be within reach of it.
pub fn approach_velocity(from: &Vec3, to: &Vec3, score: &Score) -> (v: Velocity)
    requires
        -REACH <= to.x - from.x <= REACH,
        -REACH <= to.y - from.y <= REACH,
    ensures
        v.0 == approach(*from, *to, *score),
{
    let speed: i64 = (ASTERIOD_BASE * (score.0 as i64 + ASTERIOD_DIFFICULTY)) / ASTERIOD_DIFFICULTY;
    let dx: i64 = (to.x as i128 - from.x as i128) as i64;
    let dy: i64 = (to.y as i128 - from.y as i128) as i64;
    Velocity(scaled(dx, dy, speed))
}

/// The asteroid that appears at `(x, y)` with the health that `roll` gives, and
/// makes for the ship at `player`.
pub open spec fn spawn_at(score: Score, player: Vec3, x: int, y: int, roll: int) -> AsteriodBundle {
    let position = Vec3 { x: x as i64, y: y as i64, z: 0 };
    AsteriodBundle::spawned(score, roll, position, approach(position, player, score))
}

/// Whether `a` is an asteroid that may appear around the ship: at some point of
/// one of the four bands, with the health of some roll.
pub open spec fn may_spawn(a: AsteriodBundle, score: Score, player: Vec3, width: int, height: int) -> bool {
    exists|k: int, x: int, y: int, roll: int|
        0 <= k < 4 && (#[trigger] spawn_areas(player, width, height)[k].holds(x, y)) && 0 <= roll < ONE
            && a == #[trigger] spawn_at(score, player, x, y, roll)
}

/// Makes the asteroid that appears at `(x, y)`, a point of `area`, one of the four
/// bands round the ship, with the health that `roll` gives.
pub fn spawn_in(
    score: &Score,
    player: &Vec3,
    width: u32,
    height: u32,
    area: &SpawnArea,
    x: i64,
    y: i64,
    roll: i64,
) -> (a: AsteriodBundle)
    requires
        in_field(*player),
        spawn_areas(*player, width as int, height as int).contains(*area),
        area.holds(x as int, y as int),
        0 <= roll < ONE,
    ensures
        a == spawn_at(*score, *player, x as int, y as int, roll as int),
        may_spawn(a, *score, *player, width as int, height as int),
        a.wf(),
{
    let position = Vec3 { x, y, z: 0 };
    let ghost areas = spawn_areas(*player, width as int, height as int);
    let ghost k = choose|k: int| 0 <= k < areas.len() && areas[k] == *area;
    assert(areas[k].holds(x as int, y as int));
    let velocity = approach_velocity(&position, player, score);
    AsteriodBundle::from_roll(score, roll, position, velocity.0)
}

/// Counts the spawner's timer on by `delta` nanoseconds and, whenever it has run
/// out, adds one asteroid: at a random point of a random one of the four bands
/// beside the view, of random health, making for the ship.
pub fn spawn_asteriods(
    delta: u64,
    score: &Score,
    spawner: &mut AsteriodSpawner,
    player: &Transform,
    width: u32,
    height: u32,
    asteroids: &mut Vec<AsteriodBundle>,
)
    requires
        timer_in_range(old(spawner).timer),
        in_field(player.translation),
        width > 0,
        height > 0,
    ensures
        final(spawner)@ == (SpawnerView {
            timer: ticked(old(spawner)@.timer, delta as nat),
            ..old(spawner)@
        }),
        timer_in_range(final(spawner).timer),
        old(spawner).wf() ==> final(spawner).wf(),
        !final(spawner)@.timer.finished ==> final(asteroids)@ == old(asteroids)@,
        final(spawner)@.timer.finished ==> {
            &&& final(asteroids)@.len() == old(asteroids)@.len() + 1
            &&& final(asteroids)@.drop_last() == old(asteroids)@
            &&& may_spawn(
                final(asteroids)@.last(),
                *score,
                player.translation,
                width as int,
                height as int,
            )
            &&& final(asteroids)@.last().wf()
        },
{
    proof {
        lemma_ticked_in_range(timer_view(spawner.timer), delta as nat);
    }
    timer_tick(&mut spawner.timer, delta);
    if timer_is_finished(&spawner.timer) {
        let areas = list_spawn_areas(&player.translation, width, height);
        if let Some(area) = choose_area(&areas) {
            let x = random_in(area.x_min, area.x_max);
            let y = random_in(area.y_min, area.y_max);
            let roll = random_in(0, ONE);
            let a = spawn_in(score, &player.translation, width, height, &area, x, y, roll);
            asteroids.push(a);
        }
    }
}

impl FadeOut {
    /// Starts a fade of half a second.
    pub fn new() -> (f: FadeOut)
        ensures
            timer_view(f.timer) == fresh(PARTICLE_FADE as nat, false),
    {
        FadeOut { timer: timer_new(PARTICLE_FADE) }
    }
}

impl ParticleBundle {
    /// The particle that two rolls give at `translation`: it flies at 100 units a
    /// second in the direction of the rolls, each taken from minus a half to a
    /// half, is fully opaque and has half a second to fade.
    pub open spec fn burst(translation: Vec3, roll_x: int, roll_y: int) -> ParticleView {
        let d = direction(roll_x - ONE / 2, roll_y - ONE / 2, PARTICLE_SPEED as int);
        ParticleView {
            entity: None,
            spinning: Spinning { speed: 0 },
            velocity: Velocity(Vec2 { x: d.0 as i64, y: d.1 as i64 }),
            timer: fresh(PARTICLE_FADE as nat, false),
            transform: Transform { translation, rotation: Facing::spec_identity() },
            size: PARTICLE_SIZE,
            opacity: ONE,
        }
    }

    /// Makes the particle that two rolls, each a number of millionths below one,
    /// give at `translation`.
    pub fn from_rolls(translation: Vec3, roll_x: i64, roll_y: i64) -> (p: ParticleBundle)
        requires
            0 <= roll_x < ONE,
            0 <= roll_y < ONE,
        ensures
            p@ == Self::burst(translation, roll_x as int, roll_y as int),
            timer_in_range(p.fadeout.timer),
    {
        ParticleBundle {
            entity: None,
            spinning: Spinning { speed: 0 },
            velocity: Velocity(scaled(roll_x - ONE / 2, roll_y - ONE / 2, PARTICLE_SPEED)),
            fadeout: FadeOut::new(),
            transform: Transform::from_translation(translation),
            size: PARTICLE_SIZE,
            opacity: ONE,
        }
    }

    /// Whether `p` is a new particle at `translation`, whatever way it flies.
    pub open spec fn bursts_at(p: ParticleView, translation: Vec3) -> bool {
        exists|roll_x: int, roll_y: int|
            0 <= roll_x < ONE && 0 <= roll_y < ONE && p == #[trigger] Self::burst(
                translation,
                roll_x,
                roll_y,
            )
    }

    /// Makes a particle at `translation` that flies off in a random direction.
    pub fn new(translation: Vec3) -> (p: ParticleBundle)
        ensures
            Self::bursts_at(p@, translation),
            timer_in_range(p.fadeout.timer),
    {
        let roll_x = random_in(0, ONE);
        let roll_y = random_in(0, ONE);
        Self::from_rolls(translation, roll_x, roll_y)
    }

    /// Counts the fade on by `delta` nanoseconds. If that ends it, the particle is
    /// over; else it is drawn as opaque as the part of the fade that is left.
    pub fn fade(&mut self, delta: u64) -> (over: bool)
        requires
            timer_in_range(old(self).fadeout.timer),
        ensures
            over == ticked(old(self)@.timer, delta as nat).finished,
            over ==> final(self)@ == (ParticleView {
                timer: ticked(old(self)@.timer, delta as nat),
                ..old(self)@
            }),
            !over ==> final(self)@ == dimmed(old(self)@, delta as int),
            timer_in_range(final(self).fadeout.timer),
    {
        proof {
            lemma_ticked_in_range(timer_view(self.fadeout.timer), delta as nat);
        }
        timer_tick(&mut self.fadeout.timer, delta);
        if timer_is_finished(&self.fadeout.timer) {
            true
        } else {
            let elapsed = timer_elapsed_nanos(&self.fadeout.timer);
            let duration = timer_duration_nanos(&self.fadeout.timer);
            if duration == 0 || elapsed >= duration {
                self.opacity = 0;
            } else {
                let left: u128 = duration - elapsed;
                assert((left * 1_000_000) / (duration as int) <= 1_000_000) by (nonlinear_arith)
                    requires
                        0 < left <= duration,
                ;
                self.opacity = (left * 1_000_000 / duration) as i64;
            }
            false
        }
    }
}

/// A particle that is still fading after `delta` more nanoseconds.
pub open spec fn dimmed(p: ParticleView, delta: int) -> ParticleView {
    let t = ticked(p.timer, delta as nat);
    ParticleView { timer: t, opacity: fraction_left(t) as i64, ..p }
}

/// The particles that are left after `delta` more nanoseconds, in their order:
/// those whose fade has not ended, each dimmed.
pub open spec fn faded(items: Seq<ParticleView>, delta: int) -> Seq<ParticleView>
    decreases items.len(),
{
    if items.len() == 0 {
        Seq::empty()
    } else {
        let rest = faded(items.drop_last(), delta);
        if ticked(items.last().timer, delta as nat).finished {
            rest
        } else {
            rest.push(dimmed(items.last(), delta))
        }
    }
}

/// The particles of a table as plain values.
pub open spec fn particle_views(items: Seq<ParticleBundle>) -> Seq<ParticleView> {
    items.map_values(|p: ParticleBundle| p@)
}

/// Whether the fade timers of all particles can be driven.
pub open spec fn particles_in_range(items: Seq<ParticleBundle>) -> bool {
    forall|i: int| 0 <= i < items.len() ==> timer_in_range((#[trigger] items[i]).fadeout.timer)
}

/// Tells whether the fade timers of all particles can be driven.
pub fn particles_fit(particles: &Vec<ParticleBundle>) -> (fits: bool)
    ensures
        fits == particles_in_range(particles@),
{
    let mut i: usize = 0;
    while i < particles.len()
        invariant
            i <= particles.len(),
            forall|j: int| 0 <= j < i ==> timer_in_range((#[trigger] particles@[j]).fadeout.timer),
        decreases particles.len() - i,
    {
        if !timer_fits(&particles[i].fadeout.timer) {
            return false;
        }
        i += 1;
    }
    true
}

impl Moving for ParticleBundle {
    open spec fn transform(&self) -> Transform {
        self.transform
    }

    open spec fn velocity(&self) -> Velocity {
        self.velocity
    }

    open spec fn with_transform(self, t: Transform) -> Self {
        ParticleBundle { transform: t, ..self }
    }

    fn advance(&mut self, delta: u64) {
        self.transform.advance(self.velocity.0, delta);
    }
}

/// Fades every particle by `delta` nanoseconds and removes those whose fade has
/// ended.
pub fn fadeout_sprites(delta: u64, particles: &mut Vec<ParticleBundle>)
    requires
        particles_in_range(old(particles)@),
    ensures
        particle_views(final(particles)@) == faded(particle_views(old(particles)@), delta as int),
        particles_in_range(final(particles)@),
{
    let mut all: Vec<ParticleBundle> = Vec::new();
    core::mem::swap(particles, &mut all);
    let ghost before = all@;
    for particle in it: all
        invariant
            it.seq() == before,
            particles_in_range(before),
            particles_in_range(particles@),
            particle_views(particles@) == faded(
                particle_views(before.take(it.index() as int)),
                delta as int,
            ),
    {
        let mut particle = particle;
        let ghost seen = before.take(it.index() + 1);
        assert(particle_views(seen).drop_last() == particle_views(before.take(it.index() as int)));
        assert(particle_views(seen).last() == particle@);
        let ghost kept = particles@;
        let over = particle.fade(delta);
        if !over {
            particles.push(particle);
            assert(particle_views(particles@) == particle_views(kept).push(particle@));
        }
    }
    assert(before.take(before.len() as int) == before);
}

} // verus!
