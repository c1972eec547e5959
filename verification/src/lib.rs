pub mod bytes;
pub mod snapshot;
pub mod acquire;
pub mod resolve;
pub mod status;
