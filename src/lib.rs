// Conversion between a low-latency 32-bit floating-point encoding and the
// standard single-precision encoding, and the reading of numerals that feed it.

pub mod fp_engine;
pub mod input;
