//! Logical messages exchanged with the hub, one set per capability.

use crate::schema::Initialize;
use crate::error::IoError;
use vstd::prelude::*;

verus! {

/// Severity of a log record, as the protocol names it.
#[derive(Clone, Copy, Debug, PartialEq, Eq, Structural)]
pub enum LogLevel {
    Undefined,
    Trace,
    Debug,
    Info,
    Warn,
    Error,
}

/// The capability of a plugin, as the protocol names it.
#[derive(Clone, Copy, Debug, PartialEq, Eq, Structural)]
pub enum PluginType {
    Undefined,
    Sink,
    Source,
    Transform,
}

/// An event exchanged with the hub: the plugin it is addressed to or comes
/// from, and an opaque encoded payload.
#[derive(Debug, PartialEq, Eq)]
pub struct PluginEvent {
    pub plugin_id: String,
    pub plugin_version: String,
    pub payload: Option<Vec<u8>>,
}

/// An event delivered to a sink.
pub type SinkEvent = PluginEvent;

/// An event produced by a source.
pub type SourceEvent = PluginEvent;

/// An event delivered to, or produced by, a transform.
pub type TransformEvent = PluginEvent;

/// Marks the end of a plugin's work.
#[derive(Clone, Copy, Debug, PartialEq, Eq, Structural)]
pub struct Shutdown {}

/// Sent by a sink to the hub.
pub enum SinkMessage {
    Initialize(Initialize),
}

/// Sent by a source to the hub.
pub enum SourceMessage {
    Initialize(Initialize),
    Event(SourceEvent),
}

/// Sent by a transform to the hub.
pub enum TransformMessage {
    Initialize(Initialize),
}

/// What the hub sends to a sink.
pub enum RuntimeSinkPayload {
    Initialize(Initialize),
    Event(SinkEvent),
    Shutdown(Shutdown),
}

/// What the hub sends to a source.
pub enum RuntimeSourcePayload {
    Initialize(Initialize),
    Shutdown(Shutdown),
}

/// What the hub sends to a transform.
pub enum RuntimeTransformPayload {
    Initialize(Initialize),
    Event(TransformEvent),
    Shutdown(Shutdown),
}

/// A decoded message from the hub to a sink; the payload may be missing.
pub struct RuntimeSinkMessage {
    pub payload: Option<RuntimeSinkPayload>,
}

/// A decoded message from the hub to a source; the payload may be missing.
pub struct RuntimeSourceMessage {
    pub payload: Option<RuntimeSourcePayload>,
}

/// A decoded message from the hub to a transform; the payload may be missing.
pub struct RuntimeTransformMessage {
    pub payload: Option<RuntimeTransformPayload>,
}

/// A log record forwarded to the hub.
pub struct LogEvent {
    pub plugin_id: String,
    pub plugin_type: PluginType,
    pub log_level: LogLevel,
    pub message: String,
    pub details: Vec<String>,
}

/// What one attempt to read a message from the hub gave.
pub enum Delivery<M> {
    /// Fewer than four bytes came for the length prefix: no message.
    Nothing,
    /// The read or the frame check failed.
    ReceiveFailed(IoError),
    /// A frame came whose payload did not decode; the decoder's message.
    Undecodable(String),
    /// A decoded message.
    Message(M),
}

/// Where a runner stands in its lifecycle.
#[derive(Clone, Copy, Debug, PartialEq, Eq, Structural)]
pub enum Phase {
    /// Connected; the plugin has not been initialized.
    Handshaking,
    /// The plugin is initialized; its `Initialize` message awaits sending.
    Greeting,
    /// `Initialize` was sent; events and shutdown are served.
    Serving,
    /// The runner has ended.
    Terminated,
}

} // verus!
