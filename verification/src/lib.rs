//! Core logic of a cube-rain demo: a verified fixed-interval spawn timer, a
//! running cube counter with its on-screen label, and a bounded random
//! horizontal offset for each spawned cube. Rendering and physics belong to
//! the front end that drives this crate.

pub mod label;
pub mod offset;
pub mod spawner;
