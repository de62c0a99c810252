//! Resolution of the command that launches an Erlang language server:
//! configuration override, search-path lookup, a validated cache, the latest
//! remote release, a degraded local fallback, download and pruning of stale
//! installs, as a verified state machine driven by a host.

pub mod config;
pub mod names;
pub mod platform;
pub mod resolver;
pub mod servers;
pub mod store;
