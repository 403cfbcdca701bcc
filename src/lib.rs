//! Host-side engine of a GPU wave-equation simulator: grid and buffer
//! sizing, the map buffer, shader assembly, the per-frame tick loop, the
//! scripting capability table and the snapshot queue. The GPU work, files,
//! windows and the script interpreter are the caller's; this crate decides
//! what they are given and what becomes of what they hand back.

pub mod config;
pub mod grid;
pub mod map;
pub mod params;
pub mod preprocess;
pub mod ring_buffer;
pub mod scripting;
pub mod simulation;
pub mod snapshot;
pub mod text;
pub mod ui;
