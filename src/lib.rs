//! A grid-based Snake game: movement, growth, fruit placement, collision
//! detection and the scene state machine that drives it.
pub mod fruit;
pub mod game;
pub mod game_scene;
pub mod grid;
pub mod scene;
