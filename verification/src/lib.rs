//! The interactive core of a top-down adventure: what the player can reach,
//! what an action does to the world, and the modal menu and dialog that sit
//! on top of it.

pub mod effects;
pub mod game;
pub mod geometry;
pub mod interaction;
pub mod inventory;
pub mod objects;
pub mod player;
pub mod text;
pub mod ui;
