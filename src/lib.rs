//! Gameplay core of a pachinko arcade game set in a day cycle: item kinds,
//! player stats, the day, game and pause state machines, timers, and the
//! reactions of each minigame to collision events.

pub mod balls;
pub mod cutscene;
pub mod day;
pub mod dialogue;
pub mod events;
pub mod feeding;
pub mod food;
pub mod layout;
pub mod menu;
pub mod parlor;
pub mod pegs;
pub mod player;
pub mod reactions;
mod rng;
pub mod states;
pub mod stats;
pub mod targets;
pub mod timer;
pub mod tutorial;
pub mod work;
