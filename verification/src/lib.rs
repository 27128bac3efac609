//! Core of an interactive media application: a prioritized multi-pool job
//! orchestrator, a bounded non-blocking bridge between the UI thread and the
//! world thread, a single-writer entity/component world with a fixed per-tick
//! schedule, and a pluggable render pipeline.

pub mod bridge;
pub mod counting;
pub mod error;
pub mod linker;
pub mod orchestrator;
pub mod plugin;
pub mod priority;
pub mod registrar;
pub mod render;
pub mod timeline;
pub mod timeline_test;
pub mod triangle;
pub mod video;
pub mod world;

pub use priority::{PoolFamily, Priority};
