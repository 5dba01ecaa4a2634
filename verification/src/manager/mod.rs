pub mod manager;
pub mod status;
