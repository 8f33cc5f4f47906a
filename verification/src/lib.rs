//! Bookkeeping core of a three-body gravitational simulation: validated
//! bodies, numbered snapshots, a strided trajectory store and the step
//! protocol that keeps corrupted state out of it.
pub mod scalar;
pub mod body;
pub mod step;
pub mod trajectory;
pub mod simulation;
pub mod render;
