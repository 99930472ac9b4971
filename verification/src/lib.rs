//! The error type of a Kafka client, and the catalog of the status codes
//! that a broker reports.

pub mod code;
pub mod codec;
pub mod error;
pub mod laws;
pub mod local;
pub mod order;
pub mod security;
pub mod text;

pub use code::KafkaCode;
pub use error::Error;
pub use error::Result;
pub use local::clone_ioe;
