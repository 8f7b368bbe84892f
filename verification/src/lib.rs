//! Interactive run-loop host for a 16-key, monochrome-display virtual machine.
//!
//! The library covers the decisions the loop makes each iteration: the
//! run-mode state machine, the pacing of redraws against wall-clock time,
//! the edge-triggered audio gate, the physical-to-virtual key mapping, and
//! the packing of the monochrome bitmap into a pixel buffer. The I/O that
//! surrounds those decisions (window, events, audio device, files) lives
//! outside the library and feeds it plain values.

pub mod cli;
pub mod input;
pub mod orchestrator;
pub mod pacing;
pub mod render;
pub mod run_mode;

pub use run_mode::RunMode;
pub use run_mode::TransitionError;
