use asteroids::asteriods::{
    approach_velocity, fits_field, list_spawn_areas, shrink_asteriod, spawn_asteriods, spawn_in,
    AsteriodBundle, AsteriodSpawner, SpawnArea,
};
use asteroids::components::{Health, Lifetime, SafeZone, Score, Spinning, Velocity};
use asteroids::geometry::{Facing, Transform, Vec2, Vec3};
use asteroids::safezone::check_player_in_safezone;
use std::time::Duration;

#[test]
fn health_grows_with_the_score() {
    let at = Vec3 { x: 1, y: 2, z: 0 };
    let v = Vec2 { x: 3, y: 4 };
    // Score 0: from 50 to 250.
    assert_eq!(AsteriodBundle::from_roll(&Score(0), 0, at, v).health, Health(50_000));
    assert_eq!(AsteriodBundle::from_roll(&Score(0), 500_000, at, v).health, Health(150_000));
    assert_eq!(AsteriodBundle::from_roll(&Score(0), 999_999, at, v).health, Health(249_999));
    // Score 10: from 75 to 325.
    assert_eq!(AsteriodBundle::from_roll(&Score(10), 0, at, v).health, Health(75_000));
    assert_eq!(AsteriodBundle::from_roll(&Score(10), 999_999, at, v).health, Health(324_999));
    // Score 20: from 100 to 400.
    assert_eq!(AsteriodBundle::from_roll(&Score(20), 0, at, v).health, Health(100_000));
    assert_eq!(AsteriodBundle::from_roll(&Score(20), 250_000, at, v).health, Health(175_000));
    // The largest score there is.
    let big = AsteriodBundle::from_roll(&Score(u32::MAX), 999_999, at, v);
    assert_eq!(big.radius, big.health.0 + 20_000);
}

#[test]
fn a_new_asteroid() {
    let at = Vec3 { x: 1, y: 2, z: 0 };
    let a = AsteriodBundle::from_roll(&Score(0), 250_000, at, Vec2 { x: 3, y: 4 });
    assert_eq!(
        a,
        AsteriodBundle {
            entity: None,
            health: Health(100_000),
            spinning: Spinning { speed: 0 },
            velocity: Velocity(Vec2 { x: 3, y: 4 }),
            lifetime: Lifetime(20_000_000_000),
            transform: Transform { translation: at, rotation: Facing { x: 0, y: 1_000_000 } },
            radius: 120_000,
        }
    );
}

#[test]
fn random_health_stays_in_its_range() {
    let at = Vec3 { x: 0, y: 0, z: 0 };
    let mut seen = std::collections::HashSet::new();
    for _ in 0..200 {
        let a = AsteriodBundle::new(&Score(10), at, Vec2 { x: 0, y: 0 });
        assert!(75_000 <= a.health.0 && a.health.0 < 325_000);
        assert_eq!(a.radius, a.health.0 + 20_000);
        seen.insert(a.health.0);
    }
    assert!(seen.len() > 50);
}

#[test]
fn shrinking_sets_the_radius() {
    let mut radius = 999;
    shrink_asteriod(&Health(30_000), &mut radius);
    assert_eq!(radius, 50_000);
    shrink_asteriod(&Health(-5), &mut radius);
    assert_eq!(radius, 19_995);
}

#[test]
fn the_four_bands() {
    let areas = list_spawn_areas(&Vec3 { x: 1_000_000, y: -500_000, z: 0 }, 1_280_000, 720_000);
    assert_eq!(
        areas,
        vec![
            SpawnArea { x_min: 160_000, x_max: 260_000, y_min: -860_000, y_max: -140_000 },
            SpawnArea { x_min: 1_740_000, x_max: 1_840_000, y_min: -860_000, y_max: -140_000 },
            SpawnArea { x_min: 360_000, x_max: 1_640_000, y_min: -40_000, y_max: 60_000 },
            SpawnArea { x_min: 360_000, x_max: 1_640_000, y_min: -1_060_000, y_max: -960_000 },
        ]
    );
    // A view one thousandth wide still leaves bands with room in them.
    let tiny = list_spawn_areas(&Vec3 { x: 0, y: 0, z: 0 }, 1, 1);
    for a in tiny.iter() {
        assert!(a.x_min < a.x_max && a.y_min < a.y_max);
    }
}

#[test]
fn asteroids_make_for_the_ship() {
    let from = Vec3 { x: 300_000, y: 0, z: 0 };
    let to = Vec3 { x: 0, y: 400_000, z: 0 };
    // 50 units a second at score 0, 75 at score 10, 100 at score 20.
    assert_eq!(approach_velocity(&from, &to, &Score(0)), Velocity(Vec2 { x: -30_000, y: 40_000 }));
    assert_eq!(approach_velocity(&from, &to, &Score(10)), Velocity(Vec2 { x: -45_000, y: 60_000 }));
    assert_eq!(approach_velocity(&from, &to, &Score(20)), Velocity(Vec2 { x: -60_000, y: 80_000 }));
    assert_eq!(approach_velocity(&from, &from, &Score(20)), Velocity(Vec2 { x: 0, y: 0 }));
}

#[test]
fn spawning_at_a_given_point() {
    let player = Vec3 { x: 0, y: 0, z: 0 };
    let areas = list_spawn_areas(&player, 1_280_000, 720_000);
    let a = spawn_in(&Score(20), &player, 1_280_000, 720_000, &areas[1], 800_000, -600_000 + 360_000 - 360_000, 0);
    assert_eq!(a.transform.translation, Vec3 { x: 800_000, y: -600_000, z: 0 });
    assert_eq!(a.velocity, Velocity(Vec2 { x: -80_000, y: 60_000 }));
    assert_eq!(a.health, Health(100_000));
    assert_eq!(a.radius, 120_000);
    assert_eq!(a.lifetime, Lifetime(20_000_000_000));
}

fn in_some_band(areas: &Vec<SpawnArea>, at: Vec3) -> Option<usize> {
    areas
        .iter()
        .position(|a| a.x_min <= at.x && at.x < a.x_max && a.y_min <= at.y && at.y < a.y_max)
}

#[test]
fn the_spawner_spawns_on_its_period() {
    let mut spawner = AsteriodSpawner::new();
    assert_eq!(spawner.current_duration, 2_000_000_000);
    assert_eq!(spawner.timer.duration(), Duration::from_secs(2));
    assert_eq!(spawner.timer.mode(), bevy::time::TimerMode::Repeating);
    let player = Transform::from_translation(Vec3 { x: 40_000, y: -90_000, z: 0 });
    let mut asteroids = vec![];
    spawn_asteriods(1_999_999_999, &Score(0), &mut spawner, &player, 1_280_000, 720_000, &mut asteroids);
    assert!(asteroids.is_empty());
    spawn_asteriods(1, &Score(0), &mut spawner, &player, 1_280_000, 720_000, &mut asteroids);
    assert_eq!(asteroids.len(), 1);
    // The timer has wrapped round: the next asteroid is two seconds away again.
    assert_eq!(spawner.timer.elapsed(), Duration::ZERO);
    spawn_asteriods(1_000_000_000, &Score(0), &mut spawner, &player, 1_280_000, 720_000, &mut asteroids);
    assert_eq!(asteroids.len(), 1);
    // A long frame still brings one asteroid, and keeps what is over.
    spawn_asteriods(5_500_000_000, &Score(0), &mut spawner, &player, 1_280_000, 720_000, &mut asteroids);
    assert_eq!(asteroids.len(), 2);
    assert_eq!(spawner.timer.elapsed(), Duration::from_millis(500));
}

#[test]
fn spawned_asteroids_appear_in_the_bands() {
    let mut spawner = AsteriodSpawner::new();
    let player = Transform::from_translation(Vec3 { x: 40_000, y: -90_000, z: 0 });
    let areas = list_spawn_areas(&player.translation, 1_280_000, 720_000);
    let score = Score(20);
    let mut asteroids = vec![];
    let mut bands = [0usize; 4];
    let mut places = std::collections::HashSet::new();
    for n in 1..=400 {
        spawn_asteriods(2_000_000_000, &score, &mut spawner, &player, 1_280_000, 720_000, &mut asteroids);
        assert_eq!(asteroids.len(), n);
        let a = asteroids[n - 1];
        let at = a.transform.translation;
        assert_eq!(at.z, 0);
        let k = in_some_band(&areas, at).unwrap();
        bands[k] += 1;
        places.insert((at.x, at.y));
        assert_eq!(a.velocity, approach_velocity(&at, &player.translation, &score));
        let v = a.velocity.0;
        // 100 units a second at this score, but for the rounding of each component.
        assert!(v.x.abs() <= 100_000 && v.y.abs() <= 100_000);
        assert!(v.x * v.x + v.y * v.y <= 100_002 * 100_002);
        assert!(v.x * v.x + v.y * v.y >= 99_998 * 99_998);
        // It flies towards the ship.
        assert!(v.x * (player.translation.x - at.x) + v.y * (player.translation.y - at.y) > 0);
        assert!(100_000 <= a.health.0 && a.health.0 < 400_000);
        assert_eq!(a.radius, a.health.0 + 20_000);
        assert_eq!(a.lifetime, Lifetime(20_000_000_000));
        assert_eq!(a.transform.rotation, Facing { x: 0, y: 1_000_000 });
        assert_eq!(a.entity, None);
    }
    // Every band is used, and the places differ.
    assert!(bands.iter().all(|&n| n > 0));
    assert!(places.len() > 300);
}

#[test]
fn asteroids_come_faster_outside_the_safe_zone() {
    let zone = SafeZone::new();
    assert_eq!(zone.radius, 2_000_000);
    assert_eq!(zone.center, Vec3 { x: 0, y: 0, z: -50_000 });
    let mut spawner = AsteriodSpawner::new();
    // At exactly 2000 units the ship is still inside.
    let edge = Transform::from_translation(Vec3 { x: 1_200_000, y: -1_600_000, z: 0 });
    check_player_in_safezone(&edge, &zone, &mut spawner);
    assert_eq!(spawner.current_duration, 2_000_000_000);
    assert_eq!(spawner.timer.duration(), Duration::from_secs(2));
    // A thousandth farther it is outside.
    let out = Transform::from_translation(Vec3 { x: 1_200_001, y: -1_600_000, z: 0 });
    check_player_in_safezone(&out, &zone, &mut spawner);
    assert_eq!(spawner.current_duration, 500_000_000);
    assert_eq!(spawner.timer.duration(), Duration::from_millis(500));
    check_player_in_safezone(&out, &zone, &mut spawner);
    assert_eq!(spawner.timer.duration(), Duration::from_millis(500));
    // And back inside, the long period returns at once.
    check_player_in_safezone(&edge, &zone, &mut spawner);
    assert_eq!(spawner.current_duration, 2_000_000_000);
    assert_eq!(spawner.timer.duration(), Duration::from_secs(2));
}

#[test]
fn the_period_change_keeps_the_time_run() {
    let zone = SafeZone::new();
    let mut spawner = AsteriodSpawner::new();
    let out = Transform::from_translation(Vec3 { x: 0, y: 2_000_001, z: 0 });
    let mut asteroids = vec![];
    spawn_asteriods(1_200_000_000, &Score(0), &mut spawner, &out, 1_280_000, 720_000, &mut asteroids);
    assert!(asteroids.is_empty());
    check_player_in_safezone(&out, &zone, &mut spawner);
    assert_eq!(spawner.timer.elapsed(), Duration::from_millis(1_200));
    // 1.2 s and one more nanosecond are more than two periods of half a second.
    spawn_asteriods(1, &Score(0), &mut spawner, &out, 1_280_000, 720_000, &mut asteroids);
    assert_eq!(asteroids.len(), 1);
    assert_eq!(spawner.timer.elapsed(), Duration::from_nanos(200_000_001));
}

#[test]
fn the_field_has_ends() {
    assert!(fits_field(&Vec3 { x: 0, y: 0, z: i64::MAX }));
    assert!(fits_field(&Vec3 { x: 1 << 62, y: -(1 << 62), z: 0 }));
    assert!(!fits_field(&Vec3 { x: (1 << 62) + 1, y: 0, z: 0 }));
    assert!(!fits_field(&Vec3 { x: 0, y: -(1 << 62) - 1, z: 0 }));
    // At the very end of the field the bands still have coordinates.
    let areas = list_spawn_areas(&Vec3 { x: 1 << 62, y: -(1 << 62), z: 0 }, u32::MAX, u32::MAX);
    assert_eq!(areas.len(), 4);
    for a in areas.iter() {
        assert!(a.x_min < a.x_max && a.y_min < a.y_max);
    }
}
