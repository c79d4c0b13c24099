//! Decisions shared by the three runners. Each takes what an outside step
//! gave (a connection attempt, a send, a read, a plugin call) and says what
//! the runner does next.

use crate::error::{Error, IoError, ShutdownError};
use crate::message::Delivery;
use vstd::prelude::*;

verus! {

/// Where the hub listens.
pub struct ConnectionConfig {
    pub host: String,
    pub port: u16,
}

/// What a runner's loop does after one message.
#[derive(Debug, PartialEq, Eq)]
pub enum Step {
    /// Read the next message.
    Continue,
    /// Log this error, drop the message, and read the next one.
    Report(Error),
    /// The loop ends with this result; nothing more is read.
    Finished(Result<(), Error>),
}

/// The outcome of setting a runner up: a failed connection is an I/O error and
/// comes first; then a failure to install the log forwarder.
pub fn connect_outcome(connected: Result<(), IoError>, logger: Result<(), String>) -> (r: Result<(), Error>)
    ensures
        connected is Err ==> r == Err::<(), Error>(Error::IOError(connected->Err_0)),
        connected is Ok && logger is Err ==> r == Err::<(), Error>(Error::SetLoggerError(logger->Err_0)),
        connected is Ok && logger is Ok ==> r is Ok,
{
    match connected {
        Err(e) => Err(Error::IOError(e)),
        Ok(()) => match logger {
            Err(m) => Err(Error::SetLoggerError(m)),
            Ok(()) => Ok(()),
        },
    }
}

/// The outcome of sending the `Initialize` message: its I/O error, if any.
pub open spec fn hello_result(sent: Result<(), IoError>) -> Result<(), Error> {
    match sent {
        Ok(()) => Ok(()),
        Err(e) => Err(Error::IOError(e)),
    }
}

/// The outcome of sending the `Initialize` message.
pub fn hello_outcome(sent: Result<(), IoError>) -> (r: Result<(), Error>)
    ensures
        r == hello_result(sent),
{
    match sent {
        Ok(()) => Ok(()),
        Err(e) => Err(Error::IOError(e)),
    }
}

/// Opens one delivery: a decoded message is handed on; an empty read means
/// read again; a failed read or an undecodable frame is reported and dropped.
pub fn open_delivery<M>(d: Delivery<M>) -> (r: Result<M, Step>)
    ensures
        match d {
            Delivery::Nothing => r == Err::<M, Step>(Step::Continue),
            Delivery::ReceiveFailed(e) => r == Err::<M, Step>(Step::Report(Error::IOError(e))),
            Delivery::Undecodable(m) => r == Err::<M, Step>(Step::Report(Error::InvalidMessage(m))),
            Delivery::Message(m) => r == Ok::<M, Step>(m),
        },
{
    match d {
        Delivery::Nothing => Err(Step::Continue),
        Delivery::ReceiveFailed(e) => Err(Step::Report(Error::IOError(e))),
        Delivery::Undecodable(m) => Err(Step::Report(Error::InvalidMessage(m))),
        Delivery::Message(m) => Ok(m),
    }
}

/// What follows a plugin's shutdown: the loop ends, with the failure if any.
pub fn shutdown_outcome(result: Result<(), ShutdownError>) -> (r: Step)
    ensures
        match result {
            Ok(()) => r == Step::Finished(Ok(())),
            Err(e) => r == Step::Finished(Err(Error::ShutdownError(e))),
        },
{
    match result {
        Ok(()) => Step::Finished(Ok(())),
        Err(e) => Step::Finished(Err(Error::ShutdownError(e))),
    }
}

} // verus!
