//! Community-growth prediction and milestone notification engine.
//!
//! The library models join histories as calendar-day ordinals, evaluates
//! milestone crossings, guards against duplicate join events, chooses between
//! an external forecast delegate and an in-process regression fallback, and
//! renders growth charts.

pub mod chart;
pub mod codec;
pub mod commands;
pub mod cooldown;
pub mod date;
pub mod forecast;
pub mod history;
pub mod message;
pub mod milestone;
pub mod notify;
pub mod text;

use vstd::prelude::*;

verus! {

/// Static bot configuration.
#[derive(Debug)]
pub struct Config {
    pub prefix: String,
}

} // verus!
