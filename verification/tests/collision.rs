use asteroids::asteriods::{AsteriodBundle, ParticleBundle};
use asteroids::collision::{
    asteroids_fit, handle_asteriod_bullet_collision, player_touches, resolve_collisions,
    score_has_room, shot_hits, update_score,
};
use asteroids::components::{
    Bullet, DamageAsteriods, Health, Lifetime, Missile, Moving, Player, Score, Scoreboard, Spinning,
    Velocity,
};
use asteroids::geometry::{Facing, Transform, Vec2, Vec3};
use asteroids::movement::update_transforms;

fn rock(health: i64, x: i64, y: i64) -> AsteriodBundle {
    AsteriodBundle {
        entity: Some(7),
        health: Health(health),
        spinning: Spinning { speed: 0 },
        velocity: Velocity(Vec2 { x: 0, y: 0 }),
        lifetime: Lifetime(20_000_000_000),
        transform: Transform::from_translation(Vec3 { x, y, z: 0 }),
        radius: health + 20_000,
    }
}

fn bullet(damage: u32, x: i64, y: i64) -> Bullet {
    Bullet {
        entity: None,
        transform: Transform::from_translation(Vec3 { x, y, z: 0 }),
        velocity: Velocity(Vec2 { x: 0, y: 1_000_000 }),
        damage: DamageAsteriods { damage },
        lifetime: Lifetime(1_000_000_000),
    }
}

fn missile(damage: u32, x: i64, y: i64) -> Missile {
    Missile {
        entity: None,
        transform: Transform::from_translation(Vec3 { x, y, z: 0 }),
        velocity: Velocity(Vec2 { x: 0, y: 500_000 }),
        damage: DamageAsteriods { damage },
        lifetime: Lifetime(4_000_000_000),
    }
}

#[test]
fn bullet_meets_asteroid() {
    // An asteroid of health 50 stands 100 units ahead of a bullet of damage 20.
    let mut score = Score(3);
    let mut asteroids = vec![rock(50_000, 0, 100_000)];
    let mut bullets = vec![bullet(20_000, 0, 0)];
    let mut missiles = vec![];
    let mut particles: Vec<ParticleBundle> = vec![];

    // At 100 units the bullet is beyond the asteroid's radius of 70 and the pad of 10.
    handle_asteriod_bullet_collision(
        &mut score,
        &mut asteroids,
        &mut bullets,
        &mut missiles,
        &mut particles,
    );
    assert_eq!(asteroids, vec![rock(50_000, 0, 100_000)]);
    assert_eq!(bullets.len(), 1);
    assert!(particles.is_empty());

    // A fortieth of a second later it has come 25 units closer, and hits.
    update_transforms(25_000_000, &mut bullets);
    assert_eq!(bullets[0].transform.translation, Vec3 { x: 0, y: 25_000, z: 0 });
    handle_asteriod_bullet_collision(
        &mut score,
        &mut asteroids,
        &mut bullets,
        &mut missiles,
        &mut particles,
    );
    assert_eq!(asteroids.len(), 1);
    assert_eq!(asteroids[0].health, Health(30_000));
    assert_eq!(asteroids[0].radius, 50_000);
    assert_eq!(asteroids[0].entity, Some(7));
    assert!(bullets.is_empty());
    assert_eq!(particles.len(), 1);
    assert_eq!(particles[0].transform.translation, Vec3 { x: 0, y: 25_000, z: 5_000 });
    assert_eq!(score, Score(3));
}

#[test]
fn missile_overkill() {
    let mut score = Score(0);
    let mut asteroids = vec![rock(150_000, 0, 0)];
    let mut bullets = vec![];
    let mut missiles = vec![missile(100_000, 30_000, 40_000)];
    let mut particles: Vec<ParticleBundle> = vec![];
    handle_asteriod_bullet_collision(
        &mut score,
        &mut asteroids,
        &mut bullets,
        &mut missiles,
        &mut particles,
    );
    assert_eq!(score, Score(1));
    assert!(asteroids.is_empty());
    assert!(missiles.is_empty());
    assert_eq!(particles.len(), 10);
    for p in particles.iter() {
        assert_eq!(p.transform.translation, Vec3 { x: 30_000, y: 40_000, z: 5_000 });
        assert_eq!(p.size, 10_000);
        assert_eq!(p.opacity, 1_000_000);
        assert_eq!(p.entity, None);
    }
}

#[test]
fn missile_without_overkill() {
    let mut score = Score(0);
    let mut asteroids = vec![rock(200_000, 0, 0)];
    let mut bullets = vec![];
    let mut missiles = vec![missile(100_000, 0, 0)];
    let sparks = resolve_collisions(&mut score, &mut asteroids, &mut bullets, &mut missiles);
    assert_eq!(score, Score(0));
    assert_eq!(asteroids.len(), 1);
    assert_eq!(asteroids[0].health, Health(100_000));
    assert_eq!(asteroids[0].radius, 120_000);
    assert!(missiles.is_empty());
    assert_eq!(sparks, vec![Vec3 { x: 0, y: 0, z: 5_000 }]);
}

#[test]
fn near_miss_does_not_trigger() {
    // Radius 70 and pad 10: a shot at 80.01 units misses, as does one at exactly 80.
    let a = rock(50_000, 0, 0);
    assert!(!shot_hits(&Vec3 { x: 80_010, y: 0, z: 0 }, &a));
    assert!(!shot_hits(&Vec3 { x: 80_000, y: 0, z: 0 }, &a));
    assert!(shot_hits(&Vec3 { x: 79_999, y: 0, z: 0 }, &a));
    assert!(shot_hits(&Vec3 { x: -48_000, y: 63_999, z: 12 }, &a));
    assert!(!shot_hits(&Vec3 { x: -48_000, y: 64_000, z: 12 }, &a));

    let mut score = Score(5);
    let mut asteroids = vec![a];
    let mut bullets = vec![bullet(20_000, 80_010, 0)];
    let mut missiles = vec![missile(100_000, 0, -80_010)];
    let sparks = resolve_collisions(&mut score, &mut asteroids, &mut bullets, &mut missiles);
    assert!(sparks.is_empty());
    assert_eq!(asteroids, vec![a]);
    assert_eq!(bullets, vec![bullet(20_000, 80_010, 0)]);
    assert_eq!(missiles, vec![missile(100_000, 0, -80_010)]);
    assert_eq!(score, Score(5));
}

#[test]
fn bullets_wear_an_asteroid_down() {
    let mut score = Score(0);
    let mut asteroids = vec![rock(50_000, 0, 0)];
    let mut bullets =
        vec![bullet(20_000, 1_000, 0), bullet(20_000, 500_000, 0), bullet(20_000, 0, 2_000), bullet(20_000, 3_000, 0)];
    let mut missiles = vec![];
    let sparks = resolve_collisions(&mut score, &mut asteroids, &mut bullets, &mut missiles);
    // Three hits of 20 take 50 below zero: the asteroid goes, for one point.
    assert!(asteroids.is_empty());
    assert_eq!(score, Score(1));
    assert_eq!(bullets, vec![bullet(20_000, 500_000, 0)]);
    assert_eq!(
        sparks,
        vec![
            Vec3 { x: 1_000, y: 0, z: 5_000 },
            Vec3 { x: 0, y: 2_000, z: 5_000 },
            Vec3 { x: 3_000, y: 0, z: 5_000 },
        ]
    );
}

#[test]
fn health_of_exactly_nothing_removes() {
    let mut score = Score(0);
    let mut asteroids = vec![rock(40_000, 0, 0)];
    let mut bullets = vec![bullet(20_000, 0, 0), bullet(20_000, 0, 0)];
    let mut missiles = vec![];
    resolve_collisions(&mut score, &mut asteroids, &mut bullets, &mut missiles);
    assert!(asteroids.is_empty());
    assert_eq!(score, Score(1));
}

#[test]
fn a_spent_shot_hits_no_second_asteroid() {
    let mut score = Score(0);
    let mut asteroids = vec![rock(50_000, 0, 0), rock(50_000, 10_000, 0)];
    let mut bullets = vec![bullet(20_000, 5_000, 0)];
    let mut missiles = vec![];
    let sparks = resolve_collisions(&mut score, &mut asteroids, &mut bullets, &mut missiles);
    assert_eq!(asteroids.len(), 2);
    assert_eq!(asteroids[0].health, Health(30_000));
    assert_eq!(asteroids[0].radius, 50_000);
    assert_eq!(asteroids[1].health, Health(50_000));
    assert_eq!(asteroids[1].radius, 70_000);
    assert!(bullets.is_empty());
    assert_eq!(sparks.len(), 1);
}

#[test]
fn bullets_then_missile_on_one_asteroid() {
    // Bullets come first: 250 - 20 = 230, and 230 is not below twice 100.
    let mut score = Score(0);
    let mut asteroids = vec![rock(250_000, 0, 0)];
    let mut bullets = vec![bullet(20_000, 0, 0)];
    let mut missiles = vec![missile(100_000, 0, 0), missile(100_000, 1_000, 0)];
    let sparks = resolve_collisions(&mut score, &mut asteroids, &mut bullets, &mut missiles);
    // The first missile leaves 130, which is below 200: the second destroys outright.
    assert!(asteroids.is_empty());
    assert_eq!(score, Score(1));
    assert!(missiles.is_empty());
    assert_eq!(sparks.len(), 1 + 1 + 10);
    assert_eq!(sparks[1], Vec3 { x: 0, y: 0, z: 5_000 });
    assert_eq!(sparks[2], Vec3 { x: 1_000, y: 0, z: 5_000 });
    assert_eq!(sparks[11], Vec3 { x: 1_000, y: 0, z: 5_000 });
}

#[test]
fn the_radius_is_health_and_twenty_after_every_pass() {
    let mut score = Score(0);
    let mut asteroids = vec![rock(90_000, 0, 0), rock(300_000, 1_000_000, 0), rock(55_000, 0, 1_000_000)];
    let mut bullets = vec![bullet(20_000, 0, 0), bullet(20_000, 0, 1_000_000), bullet(20_000, 0, 1_001_000)];
    let mut missiles = vec![missile(100_000, 1_000_000, 0)];
    resolve_collisions(&mut score, &mut asteroids, &mut bullets, &mut missiles);
    assert_eq!(asteroids.len(), 3);
    assert_eq!(asteroids[0].health, Health(70_000));
    assert_eq!(asteroids[1].health, Health(200_000));
    assert_eq!(asteroids[2].health, Health(15_000));
    for a in asteroids.iter() {
        assert_eq!(a.radius, a.health.0 + 20_000);
    }
}

#[test]
fn points_are_counted() {
    let mut s = Score(41);
    s.award();
    assert_eq!(s, Score(42));
    s.reset();
    assert_eq!(s, Score(0));
    let mut last = Score(u32::MAX - 1);
    last.award();
    assert_eq!(last, Score(u32::MAX));
}

#[test]
fn the_score_needs_room() {
    let asteroids = vec![rock(10_000, 0, 0), rock(10_000, 0, 0)];
    let missiles = vec![missile(100_000, 0, 0)];
    assert!(score_has_room(&Score(0), &asteroids, &missiles));
    assert!(score_has_room(&Score(u32::MAX - 3), &asteroids, &missiles));
    assert!(!score_has_room(&Score(u32::MAX - 2), &asteroids, &missiles));
    assert!(score_has_room(&Score(u32::MAX), &vec![], &vec![]));

    // With room for it, the last point is still counted.
    let mut score = Score(u32::MAX - 1);
    let mut asteroids = vec![rock(10_000, 0, 0)];
    let mut bullets = vec![bullet(20_000, 0, 0)];
    let mut missiles = vec![];
    assert!(score_has_room(&score, &asteroids, &missiles));
    resolve_collisions(&mut score, &mut asteroids, &mut bullets, &mut missiles);
    assert!(asteroids.is_empty());
    assert_eq!(score, Score(u32::MAX));
}

#[test]
fn two_missiles_can_each_destroy_outright() {
    // The first leaves the asteroid below nothing, which is below twice the second's damage.
    let mut score = Score(0);
    let mut asteroids = vec![rock(150_000, 0, 0)];
    let mut bullets = vec![];
    let mut missiles = vec![missile(100_000, 0, 0), missile(100_000, 0, 0), missile(100_000, 900_000, 0)];
    let sparks = resolve_collisions(&mut score, &mut asteroids, &mut bullets, &mut missiles);
    assert!(asteroids.is_empty());
    assert_eq!(score, Score(2));
    assert_eq!(missiles, vec![missile(100_000, 900_000, 0)]);
    assert_eq!(sparks.len(), 20);
}

#[test]
fn touching_an_asteroid_costs_the_score() {
    let mut player = Player::new();
    assert_eq!(player.radius, 24_000);
    // Radii 24 and 70: contact below 94 units.
    let a = rock(50_000, 93_999, 0);
    assert!(player_touches(&player, &a));
    let mut label = Scoreboard { transform: Transform::from_translation(Vec3 { x: 1, y: 2, z: 3 }), text: String::new() };
    let mut score = Score(12);
    update_score(&mut score, &mut label, &player, &vec![rock(50_000, 500_000, 0), a]);
    assert_eq!(score, Score(0));
    // The label shows the score that the frame began with.
    assert_eq!(label.text, "12");
    assert_eq!(label.transform, Transform::from_translation(Vec3 { x: 1, y: 2, z: 3 }));

    player.transform.translation = Vec3 { x: -1, y: 0, z: 0 };
    assert!(!player_touches(&player, &a));
    update_score(&mut score, &mut label, &player, &vec![rock(50_000, 500_000, 0), a]);
    assert_eq!(label.text, "0");
    let mut score = Score(4_000_000_000);
    update_score(&mut score, &mut label, &player, &vec![rock(50_000, 500_000, 0), a]);
    assert_eq!(score, Score(4_000_000_000));
    assert_eq!(label.text, "4000000000");
    update_score(&mut score, &mut label, &player, &vec![]);
    assert_eq!(score, Score(4_000_000_000));
}

#[test]
fn the_ship_advances_with_its_facing() {
    let mut player = Player::new();
    player.velocity = Velocity(Vec2 { x: 0, y: 200_000 });
    player.transform.rotation = Facing { x: 1_000_000, y: 0 };
    player.advance(1_000_000_000);
    assert_eq!(player.transform.translation, Vec3 { x: 200_000, y: 0, z: 0 });
    assert_eq!(player.health, Health(100_000));
}

#[test]
fn asteroids_that_fit() {
    assert!(asteroids_fit(&vec![]));
    assert!(asteroids_fit(&vec![rock(50_000, 0, 0), rock(-7, 0, 0)]));
    let mut huge = rock(50_000, 0, 0);
    huge.health = Health(i64::MAX - 20_000);
    assert!(asteroids_fit(&vec![rock(50_000, 0, 0), huge]));
    huge.health = Health(i64::MAX - 19_999);
    assert!(!asteroids_fit(&vec![rock(50_000, 0, 0), huge]));
}
