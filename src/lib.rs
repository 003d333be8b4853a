//! A resource estimator for fault-tolerant quantum programs.
//!
//! Given the logical operation counts of a compiled program, a physical qubit
//! model, a quantum error correction scheme and an error budget, the library
//! selects a code distance and a T-state distillation factory and derives the
//! physical resources that the program needs.
//!
//! All probabilities are fixed-point integers in units of 10^-18 (see
//! [`units::PROB_ONE`]) and all durations are integers in nanoseconds. Every
//! rounding step rounds error rates up, so a reported error rate never
//! understates the exact one.
pub mod budget;
pub mod config;
pub mod counts;
pub mod error;
pub mod estimator;
pub mod factory;
pub mod hardware;
pub mod layout;
pub mod report;
pub mod schema;
pub mod units;
