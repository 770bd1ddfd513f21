//! A roster-management screen for tile-based handheld display hardware,
//! built on a cooperative frame-tick scheduler and fixed-capacity
//! hardware-resource tables.
//!
//! The display owns fixed tables of sprite objects, background layers,
//! palette banks and text windows; every claim against one of those tables
//! is tracked by a [`pool::SlotTable`], and the screen logic is advanced
//! once per external frame signal by the scheduler in [`sched`].

pub mod charmap;
pub mod codec;
pub mod data;
pub mod geom;
pub mod gpu;
pub mod graphics;
pub mod input;
pub mod menu;
pub mod pool;
pub mod sched;
pub mod task;
