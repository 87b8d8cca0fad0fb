//! A grid-based interactive-fiction engine: a world of maps, characters,
//! objects and dialogs, the session of one player in it, and the controller
//! that turns each key press into a change of both.

pub mod catalog;
pub mod characters;
pub mod config;
pub mod dialogs;
pub mod doors;
pub mod grid;
pub mod maps;
pub mod objects;
pub mod screen;
pub mod session;
pub mod text;
pub mod world;
