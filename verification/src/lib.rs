//! Native window-chrome controller: the logic behind repositioning a
//! window's standard controls (the macOS "traffic lights"), intercepting and
//! forwarding window-delegate callbacks, synthesizing the keyboard chord for
//! the OS window-snap overlay, and merging per-window configuration.
//!
//! Everything here works on plain values: window geometry is integer logical
//! pixels, windows are identified by their label strings, and native handles
//! never appear. A thin platform layer is expected to read native frames,
//! hand them to this crate, and apply the computed frames back.

pub mod commands;
pub mod config;
pub mod delegate;
pub mod geometry;
pub mod input;
pub mod registry;
pub mod script;
