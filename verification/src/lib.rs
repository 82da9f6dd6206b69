//! Game rules of a side-scrolling shooter: the state machines, counters and
//! decisions behind the player, the enemies, the boss, the rooms and the menus.
//! Positions, velocities and health are floating point and live with the
//! engine; everything here works on integers, booleans and enums.

pub mod clock;
mod rng;
pub mod animation;
pub mod boss;
pub mod enemy;
pub mod score;
pub mod room;
pub mod character;
pub mod buff;
pub mod gun;
pub mod gamestate;
pub mod home;
pub mod audio;
pub mod resources;
