//! Decoding of the status stream of a motorised standing desk: a framer that
//! cuts packets out of a byte stream, and a decoder that turns the three
//! seven-segment cells of a height report into a height.

pub mod digit;
pub mod text;
pub mod serial;
