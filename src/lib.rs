//! A single-task web crawler: the traversal state machine, link resolution,
//! extraction and throttling rules, verified with Verus. Fetching, sleeping and
//! writing the output file are left to the caller, which drives a `Task` one
//! step at a time.
pub mod config;
pub mod laws;
pub mod matchers;
pub mod outside;
pub mod page;
pub mod task;
pub mod text;
pub mod throttle;

pub use config::{BaseConf, ErrorWithStr};
pub use task::Task;
