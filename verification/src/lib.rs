//! Terminal-rendering library for a memory-management CLI client.
//!
//! The library computes every line of output — fact blocks, search results,
//! agent tables, personality bar charts, status messages — as structured
//! styled text with verified contracts.  Applying ANSI colors goes through
//! the `colored` crate behind small trusted wrappers; actually writing to
//! the terminal, reading the confirmation prompt, and the progress-bar
//! handles are left to the thin binary around the library.

pub mod model;
pub mod text;
pub mod render;
pub mod chart;
pub mod laws;
pub mod paint;
