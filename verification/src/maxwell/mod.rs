//! The engines of the Maxwell generation.

pub mod common;
pub mod compute;
pub mod dma;
pub mod threed;
