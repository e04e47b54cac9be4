//! A benchmark driver that times the Argon2id password hash over a matrix
//! of cost parameters.
//!
//! A run hashes one fixed password under one salt, once for each trial of a
//! sweep, and reports for each trial how many milliseconds the hashing took.
//! The first trial that the primitive refuses ends the run.
//!
//! - [`trial`]: the three costs of a trial, and the standard matrix.
//! - [`hasher`]: what a trial asks of the Argon2 primitive, and what is
//!   taken on trust of it.
//! - [`clock`]: the stopwatch.
//! - [`salt`]: the random salt.
//! - [`report`]: samples, the report of a sweep, and its lines of text.
//! - [`driver`]: running a trial, a sweep and the standard run, and what
//!   holds of every sweep.

pub mod trial;
pub mod hasher;
pub mod clock;
pub mod salt;
pub mod report;
pub mod driver;
