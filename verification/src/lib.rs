//! Configure and invoke an external still-image capture program.
//!
//! The library holds two settings records with defaults, and builds the
//! fixed argument sequence that the capture program is launched with.
//! Launching the process itself is left to the caller.

pub mod image;
