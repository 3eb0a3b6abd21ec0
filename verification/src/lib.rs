//! Verified core of an isometric-tilemap demo: a mouse-driven camera
//! controller (pan and zoom from pointer and scroll input) and the map
//! initializers that fill a tile grid from a seeded random source or from a
//! generated dungeon's floors.

pub mod camera;
pub mod dungeon;
pub mod grid;
