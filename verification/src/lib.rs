//! A turn-based battle engine for creatures with typed stats, elemental
//! matchups, and an experience-driven leveling curve.
//!
//! The crate is organised bottom-up: bounded stats and growth curves first,
//! then species, creatures and parties, then the event queue and the battle
//! engines that turn submitted actions into applied effects.

pub mod abilities;
pub mod battle;
pub mod creature;
pub mod creature_type;
pub mod encounter;
pub mod event;
pub mod event_queue;
pub mod experience;
pub mod item;
pub mod moves;
pub mod party;
pub mod species;
pub mod species_registry;
pub mod stats;
pub mod turns;
