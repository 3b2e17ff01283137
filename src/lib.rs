//! Image synthesis and presentation core of an interactive ray tracer.
//!
//! `frame` holds the pure, deterministic pixel generator; `cache` holds the
//! single-slot store that decouples computing an image from drawing it.

pub mod cache;
pub mod frame;
