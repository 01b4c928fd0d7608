//! Password strength analysis and generation.
//!
//! The crate evaluates a candidate password against five structural
//! criteria (length, uppercase, lowercase, digit, symbol), classifies the
//! resulting score, screens candidates against a caller-supplied set of
//! known-common passwords, and generates random passwords that satisfy the
//! criteria by construction.

pub mod analysis;
pub mod gate;
pub mod generate;
