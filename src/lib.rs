//! Plugin-side communication layer: the length-prefixed frame codec, the
//! handshake schema model, the logical messages exchanged with the hub, and
//! the decision cores of the sink, source and transform runners.

pub mod error;
pub mod frame;
pub mod message;
pub mod schema;
pub mod runner;
pub mod sink;
pub mod transform;
pub mod source;
pub mod logger;
pub mod version;
