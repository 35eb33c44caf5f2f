//! Session-command layer of a read-eval-print loop for a compiled language.
//!
//! The library turns an ordered sequence of input fragments (plain code or
//! meta-commands) into a deterministic sequence of effects against an
//! evaluation-engine model: commands run eagerly in textual order, code
//! fragments are deferred and handed to the engine as one unit, and every
//! operation's output is merged into a single accumulator.

pub mod clock;
pub mod context;
pub mod deps;
pub mod engine;
pub mod errors;
pub mod laws;
pub mod model;
pub mod outputs;
pub mod segment;
pub mod vars;
