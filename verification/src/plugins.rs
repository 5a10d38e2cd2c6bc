//! The game's plugins: their names, greetings and metadata, and the
//! decisions they take on game events.

pub mod english;
pub mod french;
pub mod greek;
pub mod horizon_core;
pub mod pebble_vault;
pub mod spanish;
pub mod stars_beyond;
pub mod test_plugin;
pub mod unreal_engine;
pub mod horizon_link;
pub mod unit_test;
