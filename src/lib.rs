//! Core logic of a small orbit-camera point-cloud viewer: uniform sampling of
//! bodies inside a ball, world configuration, and the per-frame decisions of
//! an orbit camera.
pub mod camera;
pub mod config;
pub mod sampler;
