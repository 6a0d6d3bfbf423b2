//! Simulation core of a 2D side-scrolling platformer: per-tick kinematic
//! physics with axis-separated swept-collision resolution, a viewport-driven
//! terrain streaming window with debounce, tile-map data, and a small
//! animation state machine. World coordinates, sizes and per-tick velocities
//! are integers in one shared world space.

pub mod animation;
pub mod atlas;
pub mod combat;
pub mod geom;
pub mod ignore;
pub mod intent;
pub mod physics;
pub mod roster;
pub mod streaming;
pub mod tick;
pub mod tilemap;
pub mod timer;
