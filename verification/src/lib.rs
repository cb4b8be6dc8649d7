//! Timing harness for image encoders.
//!
//! The crate measures how long it takes to encode one raw BGRA frame with
//! several codecs and how large the result is. Reading the frame and printing
//! the report are left to the caller; everything in between lives here, with
//! contracts that say which frames each codec accepts and what is reported.

pub mod clock;
pub mod frame;
pub mod header;
pub mod jpeg_bench;
pub mod qoi_bench;
pub mod rapid_bench;
pub mod report;
pub mod text;
