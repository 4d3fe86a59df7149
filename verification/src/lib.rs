//! Core of a lightweight 2D game-application framework: texture regions,
//! animations, sprite data and a fixed-capacity sprite batcher that groups
//! draw submissions by texture to minimise GPU state changes.

pub mod config;
pub mod graphics;
