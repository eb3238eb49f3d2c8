//! The ship's two weapons and their cooldowns.

use vstd::prelude::*;
use crate::clock::{
    lemma_ticked_in_range, restarted, ticked, timer_is_finished, timer_reset, timer_tick,
    timer_view, TimerView,
};
use crate::components::{Bullet, Dud, Missile, PlayerWeaponry};
use crate::geometry::Transform;

verus! {

/// The weapon cooldowns as plain values.
pub struct WeaponryView {
    pub missile_timer: TimerView,
    pub gun_timer: TimerView,
}

impl View for PlayerWeaponry {
    type V = WeaponryView;

    open spec fn view(&self) -> WeaponryView {
        WeaponryView {
            missile_timer: timer_view(self.missile_timer),
            gun_timer: timer_view(self.gun_timer),
        }
    }
}

/// Whether a weapon is fired in a frame: when it is asked for and its cooldown,
/// counted on by the frame's time, has run out.
pub open spec fn fires(cooldown: TimerView, delta: nat, asked: bool) -> bool {
    asked && ticked(cooldown, delta).finished
}

/// A weapon's cooldown after a frame: counted on by the frame's time, and started
/// again if the weapon was fired.
pub open spec fn cooled(cooldown: TimerView, delta: nat, asked: bool) -> TimerView {
    if fires(cooldown, delta, asked) {
        restarted(ticked(cooldown, delta))
    } else {
        ticked(cooldown, delta)
    }
}

/// Counts both cooldowns on by `delta` nanoseconds, then fires what is asked for.
/// While the fire button is held, the gun fires a bullet whenever its cooldown has
/// run out. When the missile button is pressed, a missile leaves if that cooldown
/// has run out, and a dud if it has not. Each shot starts where the ship is, turned
/// as the ship is.
pub fn fire_weaponry(
    delta: u64,
    primary_held: bool,
    secondary_pressed: bool,
    weaponry: &mut PlayerWeaponry,
    player: &Transform,
    bullets: &mut Vec<Bullet>,
    missiles: &mut Vec<Missile>,
    duds: &mut Vec<Dud>,
)
    requires
        old(weaponry).wf(),
    ensures
        final(weaponry)@.gun_timer == cooled(old(weaponry)@.gun_timer, delta as nat, primary_held),
        final(weaponry)@.missile_timer == cooled(
            old(weaponry)@.missile_timer,
            delta as nat,
            secondary_pressed,
        ),
        final(weaponry).wf(),
        final(bullets)@ == if fires(old(weaponry)@.gun_timer, delta as nat, primary_held) {
            old(bullets)@.push(Bullet::fired(*player))
        } else {
            old(bullets)@
        },
        final(missiles)@ == if fires(old(weaponry)@.missile_timer, delta as nat, secondary_pressed) {
            old(missiles)@.push(Missile::fired(*player))
        } else {
            old(missiles)@
        },
        final(duds)@ == if secondary_pressed && !fires(
            old(weaponry)@.missile_timer,
            delta as nat,
            secondary_pressed,
        ) {
            old(duds)@.push(Dud::fired(*player))
        } else {
            old(duds)@
        },
{
    proof {
        lemma_ticked_in_range(timer_view(weaponry.missile_timer), delta as nat);
        lemma_ticked_in_range(timer_view(weaponry.gun_timer), delta as nat);
    }
    timer_tick(&mut weaponry.missile_timer, delta);
    timer_tick(&mut weaponry.gun_timer, delta);
    if primary_held {
        if timer_is_finished(&weaponry.gun_timer) {
            bullets.push(Bullet::new(player));
            timer_reset(&mut weaponry.gun_timer);
        }
    }
    if secondary_pressed {
        if timer_is_finished(&weaponry.missile_timer) {
            missiles.push(Missile::new(player));
            timer_reset(&mut weaponry.missile_timer);
        } else {
            duds.push(Dud::new(player));
        }
    }
}

} // verus!
