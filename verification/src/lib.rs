//! A terminal guessing game about Sharpe ratios: a synthetic daily-return
//! series is generated with a known annualized Sharpe ratio, sample
//! statistics are estimated from it, and the player guesses one of the two
//! ratios, scored against a tolerance derived from the estimator's standard
//! error.
//!
//! This crate is the verified core: the round statistics as a value object
//! and the guessing-game state machine. Floating-point values are carried
//! through the core as their IEEE-754 bit patterns (`u64`), which the core
//! treats opaquely; the surrounding program does the floating-point
//! arithmetic (series generation, guess parsing, tolerance comparison) and
//! hands the core plain values.

pub mod app;
pub mod buffer;
pub mod dist;
pub mod event;
