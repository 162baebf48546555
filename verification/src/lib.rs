//! Core logic of a 2-D driving-and-welding physics sandbox.
//!
//! The library models world positions, heights and angles as fixed-point
//! integers, so that every rule is a pure function that Verus can check:
//! procedural terrain streaming (a sinusoidal height field, chunk
//! generation and removal with hysteresis), the cursor-driven attachment
//! tool state machine (pick, place-validity, weld), and the cargo
//! director (spawning, freezing and despawning by distance).
//! Rendering, input polling and the rigid-body solver are outside
//! collaborators: they hand plain values in and take plain values back.

pub mod chunk;
pub mod director;
pub mod fixed;
pub mod groups;
pub mod height;
pub mod mesh;
pub mod player;
pub mod presets;
pub mod rng;
pub mod tool;
