pub mod components;
pub mod grid;
pub mod laws;
pub mod resources;
pub mod systems;
