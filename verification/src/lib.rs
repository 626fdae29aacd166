//! Command buffers for multi-draw indirect rendering.
//!
//! A command buffer holds an array of fixed-layout records, each of which
//! describes one draw call. A single "draw many" operation of the device
//! consumes the whole array. The records come in two kinds, for non-indexed
//! and for indexed draws, and so do the buffers.

pub mod content;
pub mod command;
pub mod buffer;
pub mod index;
pub mod multidraw;
