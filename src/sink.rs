//! The sink capability and its runner.

use crate::error::{Error, InitializeError, IoError, ShutdownError, SinkError};
use crate::message::{Delivery, LogLevel, Phase, RuntimeSinkMessage, RuntimeSinkPayload, SinkEvent, SinkMessage};
use crate::runner::{connect_outcome, hello_outcome, hello_result, open_delivery, shutdown_outcome, ConnectionConfig, Step};
use crate::schema::InitializeRequest;
use vstd::prelude::*;

verus! {

/// What a sink plugin body provides.
pub trait Sink {
    /// Sets the plugin up and reports its identity and schema.
    fn initialize(&mut self, plugin_id: String, log_level: LogLevel) -> Result<InitializeRequest, InitializeError>;

    /// Ends the plugin's work.
    fn shutdown(&mut self) -> Result<(), ShutdownError>;

    /// The plugin's version.
    fn version(&self) -> String;

    /// Handles one event; expected to refuse one addressed to another plugin id or version.
    fn consume_event(&mut self, event: SinkEvent) -> Result<(), SinkError>;
}

/// How a sink runner is set up.
pub struct SinkRunnerConfig {
    pub plugin_id: String,
    pub log_level: LogLevel,
    pub hub_connection: ConnectionConfig,
}

/// What follows a sink's handling of one event: a refusal is reported and
/// dropped, and the loop goes on either way.
pub fn sink_event_outcome(result: Result<(), SinkError>) -> (r: Step)
    ensures
        match result {
            Ok(()) => r == Step::Continue,
            Err(e) => r == Step::Report(Error::SinkError(e)),
        },
{
    match result {
        Ok(()) => Step::Continue,
        Err(e) => Step::Report(Error::SinkError(e)),
    }
}

/// Drives a sink plugin: handshake, then events until shutdown.
pub struct SinkRunner<T: Sink> {
    plugin: T,
    plugin_id: String,
    log_level: LogLevel,
    phase: Phase,
}

impl<T: Sink> SinkRunner<T> {
    /// The runner's lifecycle phase.
    pub closed spec fn phase_of(&self) -> Phase {
        self.phase
    }

    /// The id of the plugin this runner drives.
    pub closed spec fn id_of(&self) -> Seq<char> {
        self.plugin_id@
    }

    /// The log level handed to the plugin.
    pub closed spec fn level_of(&self) -> LogLevel {
        self.log_level
    }

    /// A runner over a connected hub, before the handshake.
    pub fn new(id: String, plugin: T, log_level: LogLevel) -> (r: SinkRunner<T>)
        ensures
            r.phase_of() == Phase::Handshaking,
            r.id_of() == id@,
            r.level_of() == log_level,
    {
        SinkRunner { plugin, plugin_id: id, log_level, phase: Phase::Handshaking }
    }

    /// Sets a runner up once the connection attempt (`connected`) and the
    /// installation of the log forwarder (`logger`) are done. A failed
    /// connection gives an I/O error, and no runner, so nothing is sent.
    pub fn initialize(plugin: T, config: SinkRunnerConfig, connected: Result<(), IoError>, logger: Result<(), String>) -> (r: Result<SinkRunner<T>, Error>)
        ensures
            connected is Err ==> r == Err::<SinkRunner<T>, Error>(Error::IOError(connected->Err_0)),
            connected is Ok && logger is Err ==> r == Err::<SinkRunner<T>, Error>(Error::SetLoggerError(logger->Err_0)),
            connected is Ok && logger is Ok ==> r is Ok && r->Ok_0.phase_of() == Phase::Handshaking
                && r->Ok_0.id_of() == config.plugin_id@ && r->Ok_0.level_of() == config.log_level,
    {
        match connect_outcome(connected, logger) {
            Err(e) => Err(e),
            Ok(()) => Ok(SinkRunner::new(config.plugin_id, plugin, config.log_level)),
        }
    }

    /// The runner's lifecycle phase.
    pub fn phase(&self) -> (r: Phase)
        ensures
            r == self.phase_of(),
    {
        self.phase
    }

    /// The plugin body.
    pub fn plugin(&self) -> &T {
        &self.plugin
    }

    /// Initializes the plugin and gives the `Initialize` message to send.
    /// A failure of the plugin ends the runner with `InitError`.
    pub fn start(&mut self) -> (r: Result<SinkMessage, Error>)
        requires
            old(self).phase_of() == Phase::Handshaking,
        ensures
            r is Ok ==> final(self).phase_of() == Phase::Greeting,
            r is Err ==> final(self).phase_of() == Phase::Terminated && r->Err_0 is InitError,
            final(self).id_of() == old(self).id_of(),
            final(self).level_of() == old(self).level_of(),
    {
        match self.plugin.initialize(self.plugin_id.clone(), self.log_level) {
            Ok(request) => {
                self.phase = Phase::Greeting;
                Ok(SinkMessage::Initialize(request.into_initialize()))
            },
            Err(e) => {
                self.phase = Phase::Terminated;
                Err(Error::InitError(e))
            },
        }
    }

    /// Records whether the `Initialize` message went out: serving starts, or
    /// the runner ends with the I/O error.
    pub fn hello_sent(&mut self, sent: Result<(), IoError>) -> (r: Result<(), Error>)
        requires
            old(self).phase_of() == Phase::Greeting,
        ensures
            r == hello_result(sent),
            r is Ok ==> final(self).phase_of() == Phase::Serving,
            r is Err ==> final(self).phase_of() == Phase::Terminated,
            final(self).id_of() == old(self).id_of(),
            final(self).level_of() == old(self).level_of(),
    {
        let r = hello_outcome(sent);
        if r.is_ok() {
            self.phase = Phase::Serving;
        } else {
            self.phase = Phase::Terminated;
        }
        r
    }

    /// Serves one delivery. Read failures, undecodable frames and messages
    /// without payload are reported and dropped; an `Initialize` echo is
    /// ignored; an event goes to the plugin once, and the loop goes on whether
    /// or not the plugin accepts it; a shutdown ends the loop with the
    /// outcome of the plugin's shutdown.
    pub fn handle(&mut self, d: Delivery<RuntimeSinkMessage>) -> (r: Step)
        requires
            old(self).phase_of() == Phase::Serving,
        ensures
            match d {
                Delivery::Nothing => r == Step::Continue,
                Delivery::ReceiveFailed(e) => r == Step::Report(Error::IOError(e)),
                Delivery::Undecodable(m) => r == Step::Report(Error::InvalidMessage(m)),
                Delivery::Message(m) => match m.payload {
                    None => r == Step::Report(Error::MissingPayload),
                    Some(RuntimeSinkPayload::Initialize(_)) => r == Step::Continue,
                    Some(RuntimeSinkPayload::Event(_)) => r == Step::Continue || (r is Report && r->Report_0 is SinkError),
                    Some(RuntimeSinkPayload::Shutdown(_)) => r == Step::Finished(Ok(()))
                        || (r is Finished && r->Finished_0 is Err && r->Finished_0->Err_0 is ShutdownError),
                },
            },
            r is Finished <==> final(self).phase_of() == Phase::Terminated,
            !(r is Finished) ==> final(self).phase_of() == Phase::Serving,
            final(self).id_of() == old(self).id_of(),
            final(self).level_of() == old(self).level_of(),
    {
        let msg = match open_delivery(d) {
            Err(step) => return step,
            Ok(m) => m,
        };
        match msg.payload {
            None => Step::Report(Error::MissingPayload),
            Some(RuntimeSinkPayload::Initialize(_)) => Step::Continue,
            Some(RuntimeSinkPayload::Event(event)) => sink_event_outcome(self.plugin.consume_event(event)),
            Some(RuntimeSinkPayload::Shutdown(_)) => {
                let step = shutdown_outcome(self.plugin.shutdown());
                self.phase = Phase::Terminated;
                step
            },
        }
    }
}

} // verus!
