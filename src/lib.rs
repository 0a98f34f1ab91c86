//! Verified core of a manager for WSL instances: a time-bounded, single-flight cache of the
//! instance list; clone and move as step-by-step protocols that never lose an instance before
//! its original is gone; a store of resource profiles and automation rules; a stateless rule
//! evaluator; and a keyed cooldown limiter. Everything that talks to the system is performed
//! by the caller: the library decides, parses and renders.

pub mod text;
pub mod encoding;
pub mod sanitize;
pub mod profile;
pub mod config;
pub mod ini_file;
pub mod profile_manager;
pub mod automation;
pub mod distro;
pub mod cache;
pub mod relocate;
pub mod gateway;
pub mod hardware;
pub mod rate_limit;
