//! Core logic of an interactive operations dashboard: a bounded-view log
//! store, the application state machine driven by keys, ticks and internal
//! events, a deterministic integer waveform for the monitor charts, and the
//! classification of scanner output lines.
//!
//! Everything here is pure state and computation. Terminal rendering,
//! subprocess spawning and the async plumbing around this crate live in the
//! accompanying binary, which drives these functions and performs the
//! `Effect`s they return.

pub mod app;
pub mod events;
pub mod logger;
pub mod monitor;
pub mod runner;
pub mod scanner;
pub mod wave;
