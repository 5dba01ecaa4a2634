//! Mirror synchronisation manager: typed job state machines, a time-ordered
//! job queue, the manager's event decisions and configuration validation.

pub mod text;
pub mod timestamp;
pub mod path;
pub mod backend;
pub mod config;
pub mod manager;
pub mod provider;
pub mod publisher;
pub mod repository;
pub mod verifiers;
pub mod worker;
