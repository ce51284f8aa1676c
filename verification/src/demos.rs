//! More example bots.

pub mod hello_world;
pub mod ui_example;
