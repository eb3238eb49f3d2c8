use asteroids::asteriods::AsteriodBundle;
use asteroids::components::{Background, Player, Score, Scoreboard, Velocity};
use asteroids::geometry::{Facing, Transform, Vec2, Vec3};
use asteroids::movement::{
    cursor_position, move_background_with_player, move_camera_with_player, move_player,
    move_scoreboard_with_player, update_transforms,
};
use asteroids::world::setup;
use std::time::Duration;

#[test]
fn every_entity_moves_by_its_velocity() {
    let here = Vec3 { x: 100_000, y: 0, z: 0 };
    let mut asteroids = vec![
        AsteriodBundle::from_roll(&Score(0), 0, here, Vec2 { x: -30_000, y: 40_000 }),
        AsteriodBundle::from_roll(&Score(0), 7, here, Vec2 { x: 0, y: 0 }),
    ];
    let before = asteroids.clone();
    update_transforms(2_000_000_000, &mut asteroids);
    assert_eq!(asteroids[0].transform.translation, Vec3 { x: 40_000, y: 80_000, z: 0 });
    assert_eq!(asteroids[1].transform.translation, here);
    for (a, b) in asteroids.iter().zip(before.iter()) {
        assert_eq!(a.health, b.health);
        assert_eq!(a.radius, b.radius);
        assert_eq!(a.velocity, b.velocity);
        assert_eq!(a.lifetime, b.lifetime);
    }
    update_transforms(0, &mut asteroids);
    assert_eq!(asteroids[0].transform.translation, Vec3 { x: 40_000, y: 80_000, z: 0 });
}

#[test]
fn the_throttle() {
    let mut v = Velocity(Vec2 { x: 5, y: 0 });
    move_player(true, false, &mut v);
    assert_eq!(v, Velocity(Vec2 { x: 5, y: 10_000 }));
    move_player(false, false, &mut v);
    assert_eq!(v, Velocity(Vec2 { x: 5, y: 10_000 }));
    move_player(false, true, &mut v);
    assert_eq!(v, Velocity(Vec2 { x: 5, y: 0 }));
    move_player(false, true, &mut v);
    assert_eq!(v, Velocity(Vec2 { x: 5, y: 0 }));
    for _ in 0..30 {
        move_player(true, false, &mut v);
    }
    assert_eq!(v, Velocity(Vec2 { x: 5, y: 200_000 }));
    move_player(true, true, &mut v);
    assert_eq!(v, Velocity(Vec2 { x: 5, y: 0 }));
    let mut near = Velocity(Vec2 { x: 0, y: 199_999 });
    move_player(true, false, &mut near);
    assert_eq!(near.0.y, 209_999);
}

#[test]
fn the_ship_turns_to_the_cursor() {
    let mut player = Transform::from_translation(Vec3 { x: 9, y: 8, z: 0 });
    // Straight above the centre of a window of 1280 by 720.
    cursor_position(Some((640_000, 0)), 1_280_000, 720_000, &mut player);
    assert_eq!(player.rotation, Facing { x: 0, y: 1_000_000 });
    // To the right of it.
    cursor_position(Some((1_280_000, 360_000)), 1_280_000, 720_000, &mut player);
    assert_eq!(player.rotation, Facing { x: 1_000_000, y: 0 });
    // Below and to the left: three to four.
    cursor_position(Some((640_000 - 300_000, 360_000 + 400_000)), 1_280_000, 720_000, &mut player);
    assert_eq!(player.rotation, Facing { x: -600_000, y: -800_000 });
    assert_eq!(player.translation, Vec3 { x: 9, y: 8, z: 0 });
}

#[test]
fn a_cursor_at_the_centre_turns_nothing() {
    let mut player = Transform::from_translation(Vec3 { x: 0, y: 0, z: 0 });
    player.rotation = Facing { x: 600_000, y: 800_000 };
    cursor_position(Some((640_000, 360_000)), 1_280_000, 720_000, &mut player);
    assert_eq!(player.rotation, Facing { x: 600_000, y: 800_000 });
    cursor_position(None, 1_280_000, 720_000, &mut player);
    assert_eq!(player.rotation, Facing { x: 600_000, y: 800_000 });
    // The ends of the range.
    cursor_position(Some((i32::MIN, i32::MAX)), u32::MAX, 0, &mut player);
    assert!(player.rotation.x < 0 && player.rotation.y < 0);
}

#[test]
fn what_follows_the_ship() {
    let player = Transform {
        translation: Vec3 { x: 1_000_000, y: -2_000_000, z: 0 },
        rotation: Facing { x: 1_000_000, y: 0 },
    };
    let mut camera = Transform::from_translation(Vec3 { x: 0, y: 0, z: 999_900 });
    move_camera_with_player(&mut camera, &player);
    assert_eq!(camera, Transform::from_translation(player.translation));

    let mut background = Background { transform: Transform::from_translation(Vec3 { x: 0, y: 0, z: 1 }) };
    move_background_with_player(&mut background, &player);
    assert_eq!(
        background.transform,
        Transform::from_translation(Vec3 { x: 1_000_000, y: -2_000_000, z: -100_000 })
    );

    let mut scoreboard = Scoreboard {
        transform: Transform::from_translation(Vec3 { x: 0, y: 0, z: 1 }),
        text: String::from("7"),
    };
    move_scoreboard_with_player(&mut scoreboard, &player);
    assert_eq!(
        scoreboard.transform,
        Transform::from_translation(Vec3 { x: 600_000, y: -2_280_000, z: 10_000 })
    );
    assert_eq!(scoreboard.text, "7");
    let far = Transform::from_translation(Vec3 { x: i64::MIN, y: i64::MIN + 280_000, z: 0 });
    move_scoreboard_with_player(&mut scoreboard, &far);
    assert_eq!(scoreboard.transform.translation, Vec3 { x: i64::MIN, y: i64::MIN, z: 10_000 });
}

#[test]
fn a_game_starts_empty() {
    let w = setup();
    assert_eq!(w.score, Score(0));
    assert_eq!(w.player, Player::new());
    assert_eq!(w.player.transform, Transform::from_translation(Vec3 { x: 0, y: 0, z: 0 }));
    assert_eq!(w.player.velocity, Velocity(Vec2 { x: 0, y: 0 }));
    assert_eq!(w.player.health.0, 100_000);
    assert_eq!(w.safe_zone.radius, 2_000_000);
    assert_eq!(w.safe_zone.center, Vec3 { x: 0, y: 0, z: -50_000 });
    assert_eq!(w.spawner.current_duration, 2_000_000_000);
    assert_eq!(w.spawner.timer.duration(), Duration::from_secs(2));
    assert_eq!(w.spawner.timer.mode(), bevy::time::TimerMode::Repeating);
    assert_eq!(w.weaponry.gun_timer.duration(), Duration::from_millis(200));
    assert_eq!(w.weaponry.missile_timer.duration(), Duration::from_secs(2));
    assert_eq!(w.camera.translation, Vec3 { x: 0, y: 0, z: 999_900 });
    assert_eq!(w.background.transform.translation, Vec3 { x: 0, y: 0, z: -100_000 });
    assert_eq!(w.scoreboard.transform.translation, Vec3 { x: 0, y: 0, z: 10_000 });
    assert_eq!(w.scoreboard.text, "");
    assert!(w.asteroids.is_empty());
    assert!(w.bullets.is_empty());
    assert!(w.missiles.is_empty());
    assert!(w.duds.is_empty());
    assert!(w.particles.is_empty());
}
