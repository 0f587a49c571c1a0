//! The simulation core of a two-paddle arcade game on integer coordinates:
//! box geometry, motion, collision response, paddle confinement, goal
//! detection and scoring, and the fixed-order tick that runs them.
pub mod geometry;
pub mod motion;
pub mod collision;
pub mod paddle;
pub mod scoring;
pub mod opponent;
pub mod simulation;
