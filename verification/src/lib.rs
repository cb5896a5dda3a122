//! Ground-station telemetry core: a tolerant line parser for sensor log
//! lines, a freshness evaluator for the log file, a latest-reading
//! extractor, the telemetry state aggregate with its per-cycle update
//! rules, and the user-account decision logic.
//!
//! Numeric sensor fields are carried as their raw tokens (`String`): the
//! parser decides which tokens are the fields of a reading and whether
//! each one is numeric; callers convert tokens to machine numbers at the
//! I/O edge.

pub mod extract;
pub mod freshness;
pub mod gpu;
pub mod laws;
pub mod numeric;
pub mod parse;
pub mod reading;
pub mod state;
pub mod text;
pub mod tokens;
pub mod users;
