//! A development-loop utility library: resolves a layered configuration
//! (command line over config file over built-in defaults), compiles include
//! and exclude glob matchers, coalesces bursts of filesystem notifications
//! through a debounce window, and decides which of an ordered command list
//! to run, stopping at the first failure.

pub mod config;
pub mod debounce;
pub mod globs;
pub mod runner;
