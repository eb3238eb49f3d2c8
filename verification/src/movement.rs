//! How things move: the integrator, the throttle, the aim, and what follows the
//! ship about.

use vstd::prelude::*;
use crate::components::{
    advanced, Background, Moving, Scoreboard, Velocity, BACKGROUND_Z_OFFSET, SCORE_TEXT_Z_OFFSET,
};
use crate::fixed::{clamp_i64, saturate, ONE};
use crate::geometry::{direction, scaled, Facing, Transform, Vec3};

verus! {

/// The fastest the throttle takes the ship: 200 units a second.
pub const TOP_SPEED: i64 = 200_000;

/// What one frame of throttle adds or takes: 10 units a second.
pub const THROTTLE_STEP: i64 = 10_000;

/// How far to the side of the ship the score label stands.
pub const SCORE_TEXT_OFFSET_X: i64 = -400_000;

/// How far above the ship the score label stands.
pub const SCORE_TEXT_OFFSET_Y: i64 = -280_000;

/// Moves every entity for `delta` nanoseconds.
pub fn update_transforms<T: Moving>(delta: u64, items: &mut Vec<T>)
    ensures
        final(items)@.len() == old(items)@.len(),
        forall|i: int|
            0 <= i < old(items)@.len() ==> #[trigger] final(items)@[i] == advanced(
                old(items)@[i],
                delta as int,
            ),
{
    let n = items.len();
    let mut i: usize = 0;
    while i < n
        invariant
            i <= n,
            n == old(items)@.len(),
            items@.len() == n,
            forall|j: int| 0 <= j < i ==> #[trigger] items@[j] == advanced(old(items)@[j], delta as int),
            forall|j: int| i <= j < n ==> #[trigger] items@[j] == old(items)@[j],
        decreases n - i,
    {
        items[i].advance(delta);
        i += 1;
    }
}

/// The forward speed after a frame of throttle. Forward adds a step while the
/// speed is below the top speed; backward then takes a step while the speed is
/// above zero; both together stop the ship.
pub open spec fn throttled(speed: int, forward: bool, backward: bool) -> int {
    let pushed = if forward && speed < TOP_SPEED {
        speed + THROTTLE_STEP
    } else {
        speed
    };
    let pulled = if backward && pushed > 0 {
        pushed - THROTTLE_STEP
    } else {
        pushed
    };
    if forward && backward {
        0
    } else {
        pulled
    }
}

/// Applies a frame of throttle to the ship's forward speed.
pub fn move_player(forward: bool, backward: bool, velocity: &mut Velocity)
    ensures
        final(velocity).0.x == old(velocity).0.x,
        final(velocity).0.y == throttled(old(velocity).0.y as int, forward, backward),
{
    if forward {
        if velocity.0.y < TOP_SPEED {
            velocity.0.y = velocity.0.y + THROTTLE_STEP;
        }
    }
    if backward {
        if velocity.0.y > 0 {
            velocity.0.y = velocity.0.y - THROTTLE_STEP;
        }
    }
    if forward && backward {
        velocity.0.y = 0;
    }
}

/// The way to turn the ship so that it points at the cursor. The cursor is given
/// in window coordinates, from the top left corner and downwards; the ship is
/// drawn at the window's centre. A cursor exactly there gives no direction.
pub open spec fn aim(cursor: Option<(i32, i32)>, width: u32, height: u32) -> Option<Facing> {
    match cursor {
        None => None,
        Some((x, y)) => {
            let cx = 2 * x - width;
            let cy = height - 2 * y;
            if cx == 0 && cy == 0 {
                None
            } else {
                let d = direction(cx, cy, ONE as int);
                Some(Facing { x: d.0 as i32, y: d.1 as i32 })
            }
        },
    }
}

/// Turns the ship towards the cursor, if there is one and it is not at the very
/// centre of the window; else leaves the ship as it is.
pub fn cursor_position(cursor: Option<(i32, i32)>, width: u32, height: u32, player: &mut Transform)
    ensures
        final(player).translation == old(player).translation,
        final(player).rotation == match aim(cursor, width, height) {
            Some(facing) => facing,
            None => old(player).rotation,
        },
{
    if let Some((x, y)) = cursor {
        let cx: i64 = 2 * (x as i64) - width as i64;
        let cy: i64 = height as i64 - 2 * (y as i64);
        if cx != 0 || cy != 0 {
            let d = scaled(cx, cy, ONE);
            player.rotation = Facing { x: d.x as i32, y: d.y as i32 };
        }
    }
}

/// Puts the camera where the ship is.
pub fn move_camera_with_player(camera: &mut Transform, player: &Transform)
    ensures
        *final(camera) == (Transform { translation: player.translation, ..*old(camera) }),
{
    camera.translation = player.translation;
}

/// Puts the backdrop behind the ship, on its own layer.
pub fn move_background_with_player(background: &mut Background, player: &Transform)
    ensures
        final(background).transform == (Transform {
            translation: Vec3 { z: BACKGROUND_Z_OFFSET, ..player.translation },
            ..old(background).transform
        }),
{
    background.transform.translation = Vec3 { z: BACKGROUND_Z_OFFSET, ..player.translation };
}

/// Puts the score label at its corner of the view round the ship, on its own layer.
pub fn move_scoreboard_with_player(scoreboard: &mut Scoreboard, player: &Transform)
    ensures
        final(scoreboard).transform == (Transform {
            translation: Vec3 {
                x: clamp_i64(player.translation.x + SCORE_TEXT_OFFSET_X) as i64,
                y: clamp_i64(player.translation.y + SCORE_TEXT_OFFSET_Y) as i64,
                z: SCORE_TEXT_Z_OFFSET,
            },
            ..old(scoreboard).transform
        }),
        final(scoreboard).text == old(scoreboard).text,
{
    scoreboard.transform.translation = Vec3 {
        x: saturate(player.translation.x as i128 + SCORE_TEXT_OFFSET_X as i128),
        y: saturate(player.translation.y as i128 + SCORE_TEXT_OFFSET_Y as i128),
        z: SCORE_TEXT_Z_OFFSET,
    };
}

} // verus!
