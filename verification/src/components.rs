//! The facets that entities are made of, and the player's own entities.

use vstd::prelude::*;
use bevy::time::Timer;
use crate::clock::{
    timer_duration, timer_elapsed, timer_finished, timer_fits, timer_new, timer_paused,
    timer_repeating,
};
use crate::fixed::clamp_i64;
use crate::geometry::{Facing, Transform, Vec2, Vec3};

verus! {

/// The running score: a point for each asteroid destroyed, lost on touching one.
#[derive(Clone, Copy, Debug, PartialEq, Eq, Structural)]
pub struct Score(pub u32);

/// A velocity in the entity's own frame, in thousandths of a unit per second.
#[derive(Clone, Copy, Debug, PartialEq, Eq, Structural)]
pub struct Velocity(pub Vec2);

/// Hit points, in thousandths.
#[derive(Clone, Copy, Debug, PartialEq, Eq, Structural)]
pub struct Health(pub i64);

/// The nanoseconds an entity has left. It is removed once this falls below zero.
#[derive(Clone, Copy, Debug, PartialEq, Eq, Structural)]
pub struct Lifetime(pub i64);

/// The hit points, in thousandths, that a projectile takes from an asteroid.
#[derive(Clone, Copy, Debug, PartialEq, Eq, Structural)]
pub struct DamageAsteriods {
    pub damage: u32,
}

/// How fast an entity turns about itself.
#[derive(Clone, Copy, Debug, PartialEq, Eq, Structural)]
pub struct Spinning {
    pub speed: i64,
}

/// The ship. There is one.
#[derive(Clone, Copy, Debug, PartialEq, Eq, Structural)]
pub struct Player {
    pub transform: Transform,
    pub velocity: Velocity,
    pub health: Health,
    pub radius: i64,
}

/// A shot from the gun.
#[derive(Clone, Copy, Debug, PartialEq, Eq, Structural)]
pub struct Bullet {
    /// The renderer's handle for this entity, once it has one. Never read here.
    pub entity: Option<u64>,
    pub transform: Transform,
    pub velocity: Velocity,
    pub damage: DamageAsteriods,
    pub lifetime: Lifetime,
}

/// A missile: slower than a bullet, longer lived, and far more damaging.
#[derive(Clone, Copy, Debug, PartialEq, Eq, Structural)]
pub struct Missile {
    /// The renderer's handle for this entity, once it has one. Never read here.
    pub entity: Option<u64>,
    pub transform: Transform,
    pub velocity: Velocity,
    pub damage: DamageAsteriods,
    pub lifetime: Lifetime,
}

/// The harmless shot that shows a missile was asked for too early.
#[derive(Clone, Copy, Debug, PartialEq, Eq, Structural)]
pub struct Dud {
    /// The renderer's handle for this entity, once it has one. Never read here.
    pub entity: Option<u64>,
    pub transform: Transform,
    pub velocity: Velocity,
    pub lifetime: Lifetime,
}

/// The two weapon cooldowns. A weapon is ready when its timer has finished.
pub struct PlayerWeaponry {
    pub missile_timer: Timer,
    pub gun_timer: Timer,
}

/// The region in which asteroids come slowly.
#[derive(Clone, Copy, Debug, PartialEq, Eq, Structural)]
pub struct SafeZone {
    pub center: Vec3,
    pub radius: i64,
}

/// The score label.
#[derive(Debug)]
pub struct Scoreboard {
    pub transform: Transform,
    /// The score as it is shown.
    pub text: String,
}

/// The backdrop.
#[derive(Clone, Copy, Debug, PartialEq, Eq, Structural)]
pub struct Background {
    pub transform: Transform,
}

/// The drawing layer of the backdrop.
pub const BACKGROUND_Z_OFFSET: i64 = -100_000;

/// The drawing layer of the safe zone.
pub const SAFEZONE_Z_OFFSET: i64 = -50_000;

/// The drawing layer of the ship.
pub const PLAYER_Z_OFFSET: i64 = 0;

/// The drawing layer of particles.
pub const PARTICLE_Z_OFFSET: i64 = 5_000;

/// The drawing layer of the score label.
pub const SCORE_TEXT_Z_OFFSET: i64 = 10_000;

/// The radius of the safe zone.
pub const SAFEZONE_SIZE: i64 = 2_000_000;

/// The ship's radius: half the width of its picture.
pub const PLAYER_RADIUS: i64 = 24_000;

/// The health the ship starts with.
pub const PLAYER_HEALTH: i64 = 100_000;

/// How fast a bullet flies.
pub const BULLET_SPEED: i64 = 1_000_000;

/// What a bullet takes from an asteroid.
pub const BULLET_DAMAGE: u32 = 20_000;

/// How long a bullet lasts: one second.
pub const BULLET_LIFETIME: i64 = 1_000_000_000;

/// The gun's cooldown: a fifth of a second.
pub const GUN_COOLDOWN: u64 = 200_000_000;

/// How fast a missile, or a dud, flies.
pub const MISSILE_SPEED: i64 = 500_000;

/// What a missile takes from an asteroid.
pub const MISSILE_DAMAGE: u32 = 100_000;

/// How long a missile lasts: four seconds.
pub const MISSILE_LIFETIME: i64 = 4_000_000_000;

/// The missile cooldown: two seconds.
pub const MISSILE_COOLDOWN: u64 = 2_000_000_000;

/// How long a dud lasts: a fifth of a second.
pub const DUD_LIFETIME: i64 = 200_000_000;

impl Score {
    /// Awards one point, for which the counter must have room.
    pub fn award(&mut self)
        requires
            old(self).0 < u32::MAX,
        ensures
            final(self).0 == old(self).0 + 1,
    {
        self.0 = self.0 + 1;
    }

    /// Takes all points away.
    pub fn reset(&mut self)
        ensures
            final(self).0 == 0,
    {
        self.0 = 0;
    }
}

impl Lifetime {
    /// Whether `delta` more nanoseconds take the lifetime below zero.
    pub open spec fn expires(self, delta: int) -> bool {
        self.0 - delta < 0
    }

    /// The lifetime left after `delta` nanoseconds.
    pub open spec fn after(self, delta: int) -> Lifetime {
        Lifetime(clamp_i64(self.0 - delta) as i64)
    }

    /// Counts `delta` nanoseconds down and says whether the lifetime is over.
    pub fn tick(&mut self, delta: u64) -> (expired: bool)
        ensures
            *final(self) == old(self).after(delta as int),
            expired == old(self).expires(delta as int),
    {
        let left: i128 = self.0 as i128 - delta as i128;
        self.0 = crate::fixed::saturate(left);
        left < 0
    }
}

/// An entity that moves: it has a placement and a velocity in its own frame.
pub trait Moving: Sized {
    /// Where the entity is.
    spec fn transform(&self) -> Transform;

    /// How fast it moves, in its own frame.
    spec fn velocity(&self) -> Velocity;

    /// The same entity at another placement.
    spec fn with_transform(self, t: Transform) -> Self;

    /// Moves the entity for `delta` nanoseconds.
    fn advance(&mut self, delta: u64)
        ensures
            *final(self) == old(self).with_transform(
                old(self).transform().moved(old(self).velocity().0, delta as int),
            ),
    ;
}

/// An entity after it moved for `delta` nanoseconds: its position has gone on by
/// its velocity, turned by its rotation, times the time; nothing else has changed.
pub open spec fn advanced<T: Moving>(item: T, delta: int) -> T {
    item.with_transform(item.transform().moved(item.velocity().0, delta))
}

/// An entity that lives for a set time.
pub trait Mortal: Sized {
    /// The time it has left.
    spec fn lifetime(&self) -> Lifetime;

    /// The same entity with another time left.
    spec fn with_lifetime(self, l: Lifetime) -> Self;

    /// The time that an entity is given is the time that it then has.
    proof fn lemma_lifetime_kept(self, l: Lifetime)
        ensures
            self.with_lifetime(l).lifetime() == l,
    ;

    /// Counts `delta` nanoseconds down and says whether the entity's time is over.
    fn age(&mut self, delta: u64) -> (expired: bool)
        ensures
            *final(self) == old(self).with_lifetime(old(self).lifetime().after(delta as int)),
            expired == old(self).lifetime().expires(delta as int),
    ;
}

/// An entity `delta` nanoseconds older.
pub open spec fn aged<T: Mortal>(item: T, delta: int) -> T {
    item.with_lifetime(item.lifetime().after(delta))
}

impl Moving for Player {
    open spec fn transform(&self) -> Transform {
        self.transform
    }

    open spec fn velocity(&self) -> Velocity {
        self.velocity
    }

    open spec fn with_transform(self, t: Transform) -> Self {
        Player { transform: t, ..self }
    }

    fn advance(&mut self, delta: u64) {
        self.transform.advance(self.velocity.0, delta);
    }
}

impl Moving for Bullet {
    open spec fn transform(&self) -> Transform {
        self.transform
    }

    open spec fn velocity(&self) -> Velocity {
        self.velocity
    }

    open spec fn with_transform(self, t: Transform) -> Self {
        Bullet { transform: t, ..self }
    }

    fn advance(&mut self, delta: u64) {
        self.transform.advance(self.velocity.0, delta);
    }
}

impl Moving for Missile {
    open spec fn transform(&self) -> Transform {
        self.transform
    }

    open spec fn velocity(&self) -> Velocity {
        self.velocity
    }

    open spec fn with_transform(self, t: Transform) -> Self {
        Missile { transform: t, ..self }
    }

    fn advance(&mut self, delta: u64) {
        self.transform.advance(self.velocity.0, delta);
    }
}

impl Moving for Dud {
    open spec fn transform(&self) -> Transform {
        self.transform
    }

    open spec fn velocity(&self) -> Velocity {
        self.velocity
    }

    open spec fn with_transform(self, t: Transform) -> Self {
        Dud { transform: t, ..self }
    }

    fn advance(&mut self, delta: u64) {
        self.transform.advance(self.velocity.0, delta);
    }
}

impl Mortal for Bullet {
    open spec fn lifetime(&self) -> Lifetime {
        self.lifetime
    }

    open spec fn with_lifetime(self, l: Lifetime) -> Self {
        Bullet { lifetime: l, ..self }
    }

    proof fn lemma_lifetime_kept(self, l: Lifetime) {
    }

    fn age(&mut self, delta: u64) -> (expired: bool) {
        self.lifetime.tick(delta)
    }
}

impl Mortal for Missile {
    open spec fn lifetime(&self) -> Lifetime {
        self.lifetime
    }

    open spec fn with_lifetime(self, l: Lifetime) -> Self {
        Missile { lifetime: l, ..self }
    }

    proof fn lemma_lifetime_kept(self, l: Lifetime) {
    }

    fn age(&mut self, delta: u64) -> (expired: bool) {
        self.lifetime.tick(delta)
    }
}

impl Mortal for Dud {
    open spec fn lifetime(&self) -> Lifetime {
        self.lifetime
    }

    open spec fn with_lifetime(self, l: Lifetime) -> Self {
        Dud { lifetime: l, ..self }
    }

    proof fn lemma_lifetime_kept(self, l: Lifetime) {
    }

    fn age(&mut self, delta: u64) -> (expired: bool) {
        self.lifetime.tick(delta)
    }
}

impl Player {
    /// The ship as the game starts: at the origin, at rest, not turned.
    pub open spec fn initial() -> Player {
        Player {
            transform: Transform {
                translation: Vec3 { x: 0, y: 0, z: PLAYER_Z_OFFSET },
                rotation: Facing::spec_identity(),
            },
            velocity: Velocity(Vec2 { x: 0, y: 0 }),
            health: Health(PLAYER_HEALTH),
            radius: PLAYER_RADIUS,
        }
    }

    /// Makes the ship as the game starts.
    pub fn new() -> (p: Player)
        ensures
            p == Player::initial(),
    {
        Player {
            transform: Transform::from_translation(Vec3 { x: 0, y: 0, z: PLAYER_Z_OFFSET }),
            velocity: Velocity(Vec2 { x: 0, y: 0 }),
            health: Health(PLAYER_HEALTH),
            radius: PLAYER_RADIUS,
        }
    }
}

impl Bullet {
    /// The bullet that leaves a ship placed at `from`.
    pub open spec fn fired(from: Transform) -> Bullet {
        Bullet {
            entity: None,
            transform: from,
            velocity: Velocity(Vec2 { x: 0, y: BULLET_SPEED }),
            damage: DamageAsteriods { damage: BULLET_DAMAGE },
            lifetime: Lifetime(BULLET_LIFETIME),
        }
    }

    /// Makes the bullet that leaves a ship placed at `from`: it starts there, flies
    /// the way the ship is turned, and lasts a second.
    pub fn new(from: &Transform) -> (b: Bullet)
        ensures
            b == Bullet::fired(*from),
    {
        Bullet {
            entity: None,
            transform: *from,
            velocity: Velocity(Vec2 { x: 0, y: BULLET_SPEED }),
            damage: DamageAsteriods { damage: BULLET_DAMAGE },
            lifetime: Lifetime(BULLET_LIFETIME),
        }
    }
}

impl Missile {
    /// The missile that leaves a ship placed at `from`.
    pub open spec fn fired(from: Transform) -> Missile {
        Missile {
            entity: None,
            transform: from,
            velocity: Velocity(Vec2 { x: 0, y: MISSILE_SPEED }),
            damage: DamageAsteriods { damage: MISSILE_DAMAGE },
            lifetime: Lifetime(MISSILE_LIFETIME),
        }
    }

    /// Makes the missile that leaves a ship placed at `from`.
    pub fn new(from: &Transform) -> (m: Missile)
        ensures
            m == Missile::fired(*from),
    {
        Missile {
            entity: None,
            transform: *from,
            velocity: Velocity(Vec2 { x: 0, y: MISSILE_SPEED }),
            damage: DamageAsteriods { damage: MISSILE_DAMAGE },
            lifetime: Lifetime(MISSILE_LIFETIME),
        }
    }
}

impl Dud {
    /// The dud that leaves a ship placed at `from`.
    pub open spec fn fired(from: Transform) -> Dud {
        Dud {
            entity: None,
            transform: from,
            velocity: Velocity(Vec2 { x: 0, y: MISSILE_SPEED }),
            lifetime: Lifetime(DUD_LIFETIME),
        }
    }

    /// Makes the dud that leaves a ship placed at `from`.
    pub fn new(from: &Transform) -> (d: Dud)
        ensures
            d == Dud::fired(*from),
    {
        Dud {
            entity: None,
            transform: *from,
            velocity: Velocity(Vec2 { x: 0, y: MISSILE_SPEED }),
            lifetime: Lifetime(DUD_LIFETIME),
        }
    }
}

impl PlayerWeaponry {
    /// The weapons are sound when both timers can be driven.
    pub open spec fn wf(&self) -> bool {
        &&& crate::clock::timer_in_range(self.missile_timer)
        &&& crate::clock::timer_in_range(self.gun_timer)
    }

    /// Tells whether both timers can be driven.
    pub fn fits(&self) -> (fits: bool)
        ensures
            fits == self.wf(),
    {
        timer_fits(&self.missile_timer) && timer_fits(&self.gun_timer)
    }

    /// The weapons as the game starts: both cooling down from nothing, the gun for
    /// a fifth of a second, the missiles for two seconds.
    pub fn new() -> (w: PlayerWeaponry)
        ensures
            w.wf(),
            timer_elapsed(w.gun_timer) == 0,
            timer_duration(w.gun_timer) == GUN_COOLDOWN,
            !timer_finished(w.gun_timer),
            !timer_repeating(w.gun_timer),
            !timer_paused(w.gun_timer),
            timer_elapsed(w.missile_timer) == 0,
            timer_duration(w.missile_timer) == MISSILE_COOLDOWN,
            !timer_finished(w.missile_timer),
            !timer_repeating(w.missile_timer),
            !timer_paused(w.missile_timer),
    {
        PlayerWeaponry {
            missile_timer: timer_new(MISSILE_COOLDOWN),
            gun_timer: timer_new(GUN_COOLDOWN),
        }
    }
}

impl SafeZone {
    /// The safe zone of the game: 2000 units around the origin.
    pub fn new() -> (z: SafeZone)
        ensures
            z == (SafeZone { center: Vec3 { x: 0, y: 0, z: SAFEZONE_Z_OFFSET }, radius: SAFEZONE_SIZE }),
    {
        SafeZone { center: Vec3 { x: 0, y: 0, z: SAFEZONE_Z_OFFSET }, radius: SAFEZONE_SIZE }
    }
}

} // verus!
