//! Spatial core of a tile-grid dungeon crawler: a bounded map of tiles, a
//! camera that follows a focus point, movement resolution against the map and
//! the composition of the visible scene into draw commands.

pub mod geometry;
pub mod map;
pub mod camera;
pub mod scene;
pub mod scene_laws;
pub mod player;
pub mod components;
pub mod store;
pub mod spawner;
