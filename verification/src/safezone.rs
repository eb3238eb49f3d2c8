//! The safe zone, outside which asteroids come faster.

use vstd::prelude::*;
use crate::asteriods::{AsteriodSpawner, SpawnerView, SPAWN_PERIOD, SPAWN_PERIOD_OUTSIDE};
use crate::clock::{timer_set_duration, TimerView};
use crate::components::SafeZone;
use crate::geometry::{beyond, farther_than, Transform, Vec3};

verus! {

/// Whether a ship at `player` is outside the zone: farther from its centre than
/// its radius.
pub open spec fn outside(player: Vec3, zone: SafeZone) -> bool {
    farther_than(player, zone.center, zone.radius as int)
}

/// The spawner with its period set to `period` nanoseconds.
pub open spec fn with_period(spawner: SpawnerView, period: u64) -> SpawnerView {
    SpawnerView {
        timer: TimerView { duration: period as nat, ..spawner.timer },
        current_duration: period,
    }
}

/// The spawner after the ship's place was checked: set to the short period while
/// the ship is outside the zone, and back to the long one once it is inside.
pub open spec fn zone_checked(spawner: SpawnerView, is_outside: bool) -> SpawnerView {
    if is_outside {
        with_period(spawner, SPAWN_PERIOD_OUTSIDE)
    } else if spawner.current_duration != SPAWN_PERIOD {
        with_period(spawner, SPAWN_PERIOD)
    } else {
        spawner
    }
}

/// Sets the time between asteroids by where the ship is: half a second outside the
/// safe zone, two seconds inside it.
pub fn check_player_in_safezone(player: &Transform, zone: &SafeZone, spawner: &mut AsteriodSpawner)
    ensures
        final(spawner)@ == zone_checked(old(spawner)@, outside(player.translation, *zone)),
        old(spawner).wf() ==> final(spawner).wf(),
{
    if beyond(&player.translation, &zone.center, zone.radius) {
        spawner.current_duration = SPAWN_PERIOD_OUTSIDE;
        timer_set_duration(&mut spawner.timer, SPAWN_PERIOD_OUTSIDE);
    } else if spawner.current_duration != SPAWN_PERIOD {
        spawner.current_duration = SPAWN_PERIOD;
        timer_set_duration(&mut spawner.timer, SPAWN_PERIOD);
    }
}

} // verus!
