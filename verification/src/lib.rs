//! Data model for event-subscription descriptors in a CloudEvents-style
//! delivery system: the transport protocol bindings, the delivery sink and
//! its credentials, and the generic configuration values they carry.

pub mod config;
pub mod prelude;
pub mod protocol;
pub mod sink;
pub mod text;
pub mod time;
pub mod types;
