//! Error taxonomy of the plugin runtime. Each plugin-side error keeps the
//! message of its underlying cause.

use crate::frame::FrameError;
use vstd::prelude::*;

verus! {

/// A transport failure.
#[derive(Debug, PartialEq, Eq)]
pub enum IoError {
    /// The messaging client holds no connection.
    NotConnected,
    /// A frame could not be built, or one read was refused (version mismatch included).
    Frame(FrameError),
    /// The socket reported a failure, described by its message.
    Transport(String),
}

/// The plugin could not set itself up.
#[derive(Debug, PartialEq, Eq)]
pub struct InitializeError {
    pub source: String,
}

/// The plugin could not shut down cleanly.
#[derive(Debug, PartialEq, Eq)]
pub struct ShutdownError {
    pub source: String,
}

/// A sink plugin refused or failed on one event.
#[derive(Debug, PartialEq, Eq)]
pub struct SinkError {
    pub source: String,
}

/// A source plugin failed while producing, or an event could not be sent.
#[derive(Debug, PartialEq, Eq)]
pub struct SourceError {
    pub source: String,
}

/// A transform plugin failed on one event, or an event could not be sent.
#[derive(Debug, PartialEq, Eq)]
pub struct TransformError {
    pub source: String,
}

/// Every failure a runner reports.
#[derive(Debug, PartialEq, Eq)]
pub enum Error {
    IOError(IoError),
    InitError(InitializeError),
    ShutdownError(ShutdownError),
    SinkError(SinkError),
    SourceError(SourceError),
    TransformError(TransformError),
    /// The log forwarder could not be installed.
    SetLoggerError(String),
    /// A frame payload did not decode as the expected message.
    InvalidMessage(String),
    /// A message decoded but carried no payload.
    MissingPayload,
}

impl InitializeError {
    pub fn new(source: String) -> (r: InitializeError)
        ensures
            r.source == source,
    {
        InitializeError { source }
    }
}

impl ShutdownError {
    pub fn new(source: String) -> (r: ShutdownError)
        ensures
            r.source == source,
    {
        ShutdownError { source }
    }
}

impl SinkError {
    pub fn new(source: String) -> (r: SinkError)
        ensures
            r.source == source,
    {
        SinkError { source }
    }
}

impl SourceError {
    pub fn new(source: String) -> (r: SourceError)
        ensures
            r.source == source,
    {
        SourceError { source }
    }
}

impl TransformError {
    pub fn new(source: String) -> (r: TransformError)
        ensures
            r.source == source,
    {
        TransformError { source }
    }
}

} // verus!
