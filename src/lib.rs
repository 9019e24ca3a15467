//! A file-backed issue tracker core: issues as append-only timelines of
//! comment and tag events, a versioned JSON-shaped codec for them, and the
//! argument fold that commands use to read their flags.
use vstd::prelude::*;

pub mod timestamp;
pub mod json;
pub mod issue;
pub mod codec;
pub mod clock;
pub mod fsm;
pub mod comment;
pub mod config;
