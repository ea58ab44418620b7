//! The crate's data model in one import.

pub use crate::config::ConfigValue;
pub use crate::protocol::Protocol;
pub use crate::sink::Sink;
pub use crate::sink::SinkCredentials;
pub use crate::time::UtcTimestamp;
pub use crate::types::URIReference;
