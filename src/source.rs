//! The source capability, its local event sink, and its runner. A source
//! runs two tasks side by side: the control loop, which serves messages from
//! the hub, and the production loop, which runs the plugin. The runner here
//! decides; the caller runs the tasks and hands their results back.

use crate::error::{Error, InitializeError, IoError, ShutdownError, SourceError};
use crate::message::{Delivery, LogLevel, Phase, RuntimeSourceMessage, RuntimeSourcePayload, SourceEvent, SourceMessage};
use crate::runner::{connect_outcome, hello_outcome, hello_result, open_delivery, ConnectionConfig, Step};
use crate::schema::InitializeRequest;
use vstd::prelude::*;

verus! {

/// The handle a source body uses to emit its events to the hub.
pub struct LocalSink {
    plugin_id: String,
}

impl LocalSink {
    /// The id of the plugin whose events this handle emits.
    pub closed spec fn id_of(&self) -> Seq<char> {
        self.plugin_id@
    }

    pub fn new(plugin_id: String) -> (r: LocalSink)
        ensures
            r.id_of() == plugin_id@,
    {
        LocalSink { plugin_id }
    }

    /// The id of the plugin whose events this handle emits.
    pub fn plugin_id(&self) -> (r: &String)
        ensures
            r@ == self.id_of(),
    {
        &self.plugin_id
    }

    /// The message that carries `evt` to the hub, unchanged.
    pub fn envelope(&self, evt: SourceEvent) -> (r: SourceMessage)
        ensures
            r == SourceMessage::Event(evt),
    {
        SourceMessage::Event(evt)
    }
}

/// What a source plugin body provides.
pub trait Source {
    /// Sets the plugin up, handing it the handle for its events.
    fn initialize(&mut self, plugin_id: String, log_level: LogLevel, sink: LocalSink) -> Result<InitializeRequest, InitializeError>;

    /// Ends the plugin's work.
    fn shutdown(&mut self) -> Result<(), ShutdownError>;

    /// The plugin's version.
    fn version(&self) -> String;

    /// Produces events until done or failed.
    fn run(&self) -> Result<(), SourceError>;
}

/// How a source runner is set up.
pub struct SourceRunnerConfig {
    pub plugin_id: String,
    pub log_level: LogLevel,
    pub hub_connection: ConnectionConfig,
}

/// What the control loop does after one message from the hub.
#[derive(Debug, PartialEq, Eq)]
pub enum Control {
    /// Read the next message.
    Continue,
    /// Log this error, drop the message, and read the next one.
    Report(Error),
    /// Shut the plugin down; its outcome ends the control loop.
    Shutdown,
}

/// What the runner does once both loops have ended.
#[derive(Debug, PartialEq, Eq)]
pub enum Joined {
    /// The production loop failed: log this error and run both loops again,
    /// without a new handshake.
    Restart(Error),
    /// The runner ends with this result.
    Finished(Result<(), Error>),
}

/// The result of a fatal failure `err` once the plugin was asked to shut
/// down: the shutdown's own failure wins.
pub open spec fn fatal_result(err: Error, shutdown: Result<(), ShutdownError>) -> Result<(), Error> {
    match shutdown {
        Err(e) => Err(Error::ShutdownError(e)),
        Ok(()) => Err(err),
    }
}

/// Drives a source plugin: handshake, then the control and production loops,
/// restarted each time production fails.
pub struct SourceRunner<T: Source> {
    plugin: T,
    plugin_id: String,
    log_level: LogLevel,
    phase: Phase,
}

impl<T: Source> SourceRunner<T> {
    /// The runner's lifecycle phase.
    pub closed spec fn phase_of(&self) -> Phase {
        self.phase
    }

    /// The id of the plugin this runner drives.
    pub closed spec fn id_of(&self) -> Seq<char> {
        self.plugin_id@
    }

    /// The log level handed to the plugin.
    pub closed spec fn level_of(&self) -> LogLevel {
        self.log_level
    }

    /// A runner over a connected hub, before the handshake.
    pub fn new(id: String, plugin: T, log_level: LogLevel) -> (r: SourceRunner<T>)
        ensures
            r.phase_of() == Phase::Handshaking,
            r.id_of() == id@,
            r.level_of() == log_level,
    {
        SourceRunner { plugin, plugin_id: id, log_level, phase: Phase::Handshaking }
    }

    /// Sets a runner up once the connection attempt (`connected`) and the
    /// installation of the log forwarder (`logger`) are done. A failed
    /// connection gives an I/O error, and no runner, so nothing is sent.
    pub fn initialize(plugin: T, config: SourceRunnerConfig, connected: Result<(), IoError>, logger: Result<(), String>) -> (r: Result<SourceRunner<T>, Error>)
        ensures
            connected is Err ==> r == Err::<SourceRunner<T>, Error>(Error::IOError(connected->Err_0)),
            connected is Ok && logger is Err ==> r == Err::<SourceRunner<T>, Error>(Error::SetLoggerError(logger->Err_0)),
            connected is Ok && logger is Ok ==> r is Ok && r->Ok_0.phase_of() == Phase::Handshaking
                && r->Ok_0.id_of() == config.plugin_id@ && r->Ok_0.level_of() == config.log_level,
    {
        match connect_outcome(connected, logger) {
            Err(e) => Err(e),
            Ok(()) => Ok(SourceRunner::new(config.plugin_id, plugin, config.log_level)),
        }
    }

    /// The runner's lifecycle phase.
    pub fn phase(&self) -> (r: Phase)
        ensures
            r == self.phase_of(),
    {
        self.phase
    }

    /// The plugin body.
    pub fn plugin(&self) -> &T {
        &self.plugin
    }

    /// Initializes the plugin, handing it a local sink under the runner's
    /// plugin id, and gives the `Initialize` message to send. A failure of the
    /// plugin ends the runner with `InitError`.
    pub fn start(&mut self) -> (r: Result<SourceMessage, Error>)
        requires
            old(self).phase_of() == Phase::Handshaking,
        ensures
            r is Ok ==> final(self).phase_of() == Phase::Greeting && r->Ok_0 is Initialize,
            r is Err ==> final(self).phase_of() == Phase::Terminated && r->Err_0 is InitError,
            final(self).id_of() == old(self).id_of(),
            final(self).level_of() == old(self).level_of(),
    {
        let sink = LocalSink::new(self.plugin_id.clone());
        match self.plugin.initialize(self.plugin_id.clone(), self.log_level, sink) {
            Ok(request) => {
                self.phase = Phase::Greeting;
                Ok(SourceMessage::Initialize(request.into_initialize()))
            },
            Err(e) => {
                self.phase = Phase::Terminated;
                Err(Error::InitError(e))
            },
        }
    }

    /// Records whether the `Initialize` message went out: production starts,
    /// or the runner ends with the I/O error.
    pub fn hello_sent(&mut self, sent: Result<(), IoError>) -> (r: Result<(), Error>)
        requires
            old(self).phase_of() == Phase::Greeting,
        ensures
            r == hello_result(sent),
            r is Ok ==> final(self).phase_of() == Phase::Serving,
            r is Err ==> final(self).phase_of() == Phase::Terminated,
            final(self).id_of() == old(self).id_of(),
            final(self).level_of() == old(self).level_of(),
    {
        let r = hello_outcome(sent);
        if r.is_ok() {
            self.phase = Phase::Serving;
        } else {
            self.phase = Phase::Terminated;
        }
        r
    }

    /// The control loop's decision on one delivery. Read failures,
    /// undecodable frames and messages without payload are reported and
    /// dropped; an `Initialize` echo is ignored; a shutdown asks for the
    /// plugin's shutdown.
    pub fn consume(&self, d: Delivery<RuntimeSourceMessage>) -> (r: Control)
        ensures
            match d {
                Delivery::Nothing => r == Control::Continue,
                Delivery::ReceiveFailed(e) => r == Control::Report(Error::IOError(e)),
                Delivery::Undecodable(m) => r == Control::Report(Error::InvalidMessage(m)),
                Delivery::Message(m) => match m.payload {
                    None => r == Control::Report(Error::MissingPayload),
                    Some(RuntimeSourcePayload::Initialize(_)) => r == Control::Continue,
                    Some(RuntimeSourcePayload::Shutdown(_)) => r == Control::Shutdown,
                },
            },
    {
        let msg = match open_delivery(d) {
            Err(Step::Report(e)) => return Control::Report(e),
            Err(_) => return Control::Continue,
            Ok(m) => m,
        };
        match msg.payload {
            None => Control::Report(Error::MissingPayload),
            Some(RuntimeSourcePayload::Initialize(_)) => Control::Continue,
            Some(RuntimeSourcePayload::Shutdown(_)) => Control::Shutdown,
        }
    }

    /// Shuts the plugin down at the hub's request; the outcome ends the
    /// control loop.
    pub fn shutdown_plugin(&mut self) -> (r: Result<(), Error>)
        ensures
            r is Ok || r->Err_0 is ShutdownError,
            final(self).phase_of() == old(self).phase_of(),
            final(self).id_of() == old(self).id_of(),
            final(self).level_of() == old(self).level_of(),
    {
        match self.plugin.shutdown() {
            Ok(()) => Ok(()),
            Err(e) => Err(Error::ShutdownError(e)),
        }
    }

    /// The production loop: runs the plugin once; its failure is a `SourceError`.
    pub fn run_plugin(&self) -> (r: Result<(), Error>)
        ensures
            r is Ok || r->Err_0 is SourceError,
    {
        match self.plugin.run() {
            Ok(()) => Ok(()),
            Err(e) => Err(Error::SourceError(e)),
        }
    }

    /// Decides once both loops have ended, from the first failure among them
    /// (`Ok` when both ended cleanly). Clean ends finish the runner; a
    /// production failure restarts both loops with no new handshake; any other
    /// failure shuts the plugin down and ends the runner with that failure,
    /// or with the shutdown's own.
    pub fn join(&mut self, result: Result<(), Error>) -> (r: Joined)
        requires
            old(self).phase_of() == Phase::Serving,
        ensures
            result is Ok ==> r == Joined::Finished(Ok(())) && final(self).phase_of() == Phase::Terminated,
            result is Err && result->Err_0 is SourceError ==> r == Joined::Restart(result->Err_0)
                && final(self).phase_of() == Phase::Serving,
            result is Err && !(result->Err_0 is SourceError) ==> final(self).phase_of() == Phase::Terminated
                && exists|s: Result<(), ShutdownError>| r == Joined::Finished(#[trigger] fatal_result(result->Err_0, s)),
            final(self).id_of() == old(self).id_of(),
            final(self).level_of() == old(self).level_of(),
    {
        match result {
            Ok(()) => {
                self.phase = Phase::Terminated;
                Joined::Finished(Ok(()))
            },
            Err(Error::SourceError(e)) => Joined::Restart(Error::SourceError(e)),
            Err(err) => {
                let shutdown = self.plugin.shutdown();
                self.phase = Phase::Terminated;
                Joined::Finished(fatal_outcome(err, shutdown))
            },
        }
    }
}

/// The result of a fatal failure `err` once the plugin was asked to shut down.
pub fn fatal_outcome(err: Error, shutdown: Result<(), ShutdownError>) -> (r: Result<(), Error>)
    ensures
        r == fatal_result(err, shutdown),
{
    match shutdown {
        Err(e) => Err(Error::ShutdownError(e)),
        Ok(()) => Err(err),
    }
}

} // verus!
