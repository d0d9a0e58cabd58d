//! Secure password generation: deterministic charset construction from a
//! small set of options, and uniform random sampling from that charset
//! through the operating system's entropy source.

pub mod charset;
pub mod generator;
pub mod sampler;
