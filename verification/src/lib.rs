//! Verified frame-coordination core of a small 2D scene renderer.
//!
//! The scene, the movement pass, instance extraction and the frame state
//! machine are plain data and decisions; every number that the GPU reads as a
//! single-precision value is carried by its IEEE-754 bit pattern, and the
//! arithmetic on such numbers is supplied by the host.

pub mod bytes;
pub mod components;
pub mod engine;
pub mod input;
pub mod instance;
pub mod math;
pub mod mesh;
pub mod renderer;
pub mod scene;
pub mod systems;
pub mod time;
