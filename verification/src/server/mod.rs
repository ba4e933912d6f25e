//! The services that serve methods, one kind for each way of streaming.

pub mod both_streaming;
pub mod client_streaming;
pub mod non_streaming;
pub mod server_streaming;
