//! Conversion of a sampled 2D drawing path into a truncated Fourier series
//! and back into an epicycle animation.
//!
//! The verified part of the tool: the signed-frequency index map shared by
//! the coefficient extractor and the reconstructor, the assembly of the
//! animation text from rendered values, and the naming of per-frame output
//! files.

pub mod frames;
pub mod freq;
pub mod strfmt;
pub mod writer;
