//! The gameplay core of a small two-dimensional space shooter: a ship that turns
//! to the cursor and fires bullets and missiles, asteroids that come at it from
//! beyond the edge of the view, and a score.
//!
//! The library holds the rules and nothing else. It takes the frame's time, the
//! cursor, the keys and the size of the window as plain values, works on tables of
//! entities that the caller keeps, and leaves drawing them to the caller. Each
//! system is a function with a contract over the tables before and after.
//!
//! Everything is counted in whole numbers: lengths, health and radii in
//! thousandths of a unit, speeds in thousandths of a unit per second, time in
//! nanoseconds, and directions, random rolls and opacity in millionths.
//!
//! Timers are the engine's (`bevy::time::Timer`) and random draws come from `rand`;
//! `clock` and `chance` state what the library relies on of each.

pub mod fixed;
pub mod geometry;
pub mod clock;
mod chance;
pub mod components;
pub mod asteriods;
pub mod lifetime;
pub mod movement;
pub mod weapons;
pub mod collision;
pub mod scoreboard;
pub mod safezone;
pub mod world;
pub mod laws;
