//! Gravitational N-body engine on IEEE-754 binary64 encodings.

pub mod body;
pub mod driver;
pub mod dynamics;
pub mod error;
pub mod extract;
pub mod scalar;
pub mod simulation;
pub mod state;
pub mod vec3;
