//! Procedural generation of music scores with a context-sensitive stochastic
//! L-system, and the musical interpretation of the generated words.

pub mod error;
pub mod lily;
pub mod lsystem;
pub mod notation;
pub mod sanitizer;
pub mod text;
