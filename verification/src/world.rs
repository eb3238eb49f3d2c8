//! The whole state of a game, and how a game starts.

use vstd::prelude::*;
use crate::asteriods::{AsteriodBundle, AsteriodSpawner, ParticleBundle, SpawnerView, SPAWN_PERIOD};
use crate::clock::fresh;
use crate::components::{
    Background, Bullet, Dud, Missile, Player, PlayerWeaponry, SafeZone, Score, Scoreboard,
    BACKGROUND_Z_OFFSET, GUN_COOLDOWN, MISSILE_COOLDOWN, SAFEZONE_SIZE, SAFEZONE_Z_OFFSET,
    SCORE_TEXT_Z_OFFSET,
};
use crate::geometry::{Facing, Transform, Vec3};
use crate::weapons::WeaponryView;

verus! {

/// The layer from which the camera looks down.
pub const CAMERA_Z_OFFSET: i64 = 999_900;

/// Everything there is in a game.
pub struct World {
    pub score: Score,
    pub player: Player,
    pub safe_zone: SafeZone,
    pub weaponry: PlayerWeaponry,
    pub spawner: AsteriodSpawner,
    pub camera: Transform,
    pub background: Background,
    pub scoreboard: Scoreboard,
    pub asteroids: Vec<AsteriodBundle>,
    pub bullets: Vec<Bullet>,
    pub missiles: Vec<Missile>,
    pub duds: Vec<Dud>,
    pub particles: Vec<ParticleBundle>,
}

/// A placement at the origin on layer `z`, not turned.
pub open spec fn at_origin(z: i64) -> Transform {
    Transform { translation: Vec3 { x: 0, y: 0, z }, rotation: Facing::spec_identity() }
}

/// Sets a game up: the ship at rest at the origin, no points, the safe zone round
/// the origin, both weapons cooling down, an asteroid due every two seconds, and
/// nothing else about yet.
pub fn setup() -> (w: World)
    ensures
        w.score == Score(0),
        w.player == Player::initial(),
        w.safe_zone == (SafeZone {
            center: Vec3 { x: 0, y: 0, z: SAFEZONE_Z_OFFSET },
            radius: SAFEZONE_SIZE,
        }),
        w.weaponry@ == (WeaponryView {
            missile_timer: fresh(MISSILE_COOLDOWN as nat, false),
            gun_timer: fresh(GUN_COOLDOWN as nat, false),
        }),
        w.weaponry.wf(),
        w.spawner@ == (SpawnerView {
            timer: fresh(SPAWN_PERIOD as nat, true),
            current_duration: SPAWN_PERIOD,
        }),
        w.spawner.wf(),
        w.camera == at_origin(CAMERA_Z_OFFSET),
        w.background.transform == at_origin(BACKGROUND_Z_OFFSET),
        w.scoreboard.transform == at_origin(SCORE_TEXT_Z_OFFSET),
        w.scoreboard.text@ == Seq::<char>::empty(),
        w.asteroids@.len() == 0,
        w.bullets@.len() == 0,
        w.missiles@.len() == 0,
        w.duds@.len() == 0,
        w.particles@.len() == 0,
{
    World {
        score: Score(0),
        player: Player::new(),
        safe_zone: SafeZone::new(),
        weaponry: PlayerWeaponry::new(),
        spawner: AsteriodSpawner::new(),
        camera: Transform::from_translation(Vec3 { x: 0, y: 0, z: CAMERA_Z_OFFSET }),
        background: Background {
            transform: Transform::from_translation(Vec3 { x: 0, y: 0, z: BACKGROUND_Z_OFFSET }),
        },
        scoreboard: Scoreboard {
            transform: Transform::from_translation(Vec3 { x: 0, y: 0, z: SCORE_TEXT_Z_OFFSET }),
            text: String::new(),
        },
        asteroids: Vec::new(),
        bullets: Vec::new(),
        missiles: Vec::new(),
        duds: Vec::new(),
        particles: Vec::new(),
    }
}

} // verus!
