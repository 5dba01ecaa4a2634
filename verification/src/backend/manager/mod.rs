pub mod error;
pub mod event;
pub mod queue;
pub mod status;
