//! The transform capability, its local event sink, and its runner.

use crate::error::{Error, InitializeError, IoError, ShutdownError, TransformError};
use crate::message::{Delivery, LogLevel, Phase, RuntimeTransformMessage, RuntimeTransformPayload, SourceMessage, TransformEvent, TransformMessage};
use crate::runner::{connect_outcome, hello_outcome, hello_result, open_delivery, shutdown_outcome, ConnectionConfig, Step};
use crate::schema::InitializeRequest;
use vstd::prelude::*;

verus! {

/// The handle a transform body uses to emit events of its own to the hub.
pub struct LocalSink {
    plugin_id: String,
}

impl LocalSink {
    /// The id of the plugin whose events this handle emits.
    pub closed spec fn id_of(&self) -> Seq<char> {
        self.plugin_id@
    }

    pub fn new(plugin_id: String) -> (r: LocalSink)
        ensures
            r.id_of() == plugin_id@,
    {
        LocalSink { plugin_id }
    }

    /// The id of the plugin whose events this handle emits.
    pub fn plugin_id(&self) -> (r: &String)
        ensures
            r@ == self.id_of(),
    {
        &self.plugin_id
    }

    /// The message that carries `evt` to the hub, unchanged.
    pub fn envelope(&self, evt: TransformEvent) -> (r: SourceMessage)
        ensures
            r == SourceMessage::Event(evt),
    {
        SourceMessage::Event(evt)
    }
}

/// What a transform plugin body provides.
pub trait Transform {
    /// Sets the plugin up, handing it the handle for events of its own.
    fn initialize(&mut self, plugin_id: String, log_level: LogLevel, sink: LocalSink) -> Result<InitializeRequest, InitializeError>;

    /// Ends the plugin's work.
    fn shutdown(&mut self) -> Result<(), ShutdownError>;

    /// The plugin's version.
    fn version(&self) -> String;

    /// Maps one event to one output event.
    fn process_event(&mut self, event: TransformEvent) -> Result<TransformEvent, TransformError>;
}

/// How a transform runner is set up.
pub struct TransformRunnerConfig {
    pub plugin_id: String,
    pub log_level: LogLevel,
    pub hub_connection: ConnectionConfig,
}

/// What follows a transform's handling of one event. The output event is not
/// forwarded: the hub protocol has no outbound transform event, so a
/// processed event ends here. A failure is reported and dropped; the loop
/// goes on either way.
pub fn transform_event_outcome(result: Result<TransformEvent, TransformError>) -> (r: Step)
    ensures
        match result {
            Ok(_) => r == Step::Continue,
            Err(e) => r == Step::Report(Error::TransformError(e)),
        },
{
    match result {
        Ok(_) => Step::Continue,
        Err(e) => Step::Report(Error::TransformError(e)),
    }
}

/// Drives a transform plugin: handshake, then events until shutdown.
pub struct TransformRunner<T: Transform> {
    plugin: T,
    plugin_id: String,
    log_level: LogLevel,
    phase: Phase,
}

impl<T: Transform> TransformRunner<T> {
    /// The runner's lifecycle phase.
    pub closed spec fn phase_of(&self) -> Phase {
        self.phase
    }

    /// The id of the plugin this runner drives.
    pub closed spec fn id_of(&self) -> Seq<char> {
        self.plugin_id@
    }

    /// The log level handed to the plugin.
    pub closed spec fn level_of(&self) -> LogLevel {
        self.log_level
    }

    /// A runner over a connected hub, before the handshake.
    pub fn new(id: String, plugin: T, log_level: LogLevel) -> (r: TransformRunner<T>)
        ensures
            r.phase_of() == Phase::Handshaking,
            r.id_of() == id@,
            r.level_of() == log_level,
    {
        TransformRunner { plugin, plugin_id: id, log_level, phase: Phase::Handshaking }
    }

    /// Sets a runner up once the connection attempt (`connected`) and the
    /// installation of the log forwarder (`logger`) are done. A failed
    /// connection gives an I/O error, and no runner, so nothing is sent.
    pub fn initialize(plugin: T, config: TransformRunnerConfig, connected: Result<(), IoError>, logger: Result<(), String>) -> (r: Result<TransformRunner<T>, Error>)
        ensures
            connected is Err ==> r == Err::<TransformRunner<T>, Error>(Error::IOError(connected->Err_0)),
            connected is Ok && logger is Err ==> r == Err::<TransformRunner<T>, Error>(Error::SetLoggerError(logger->Err_0)),
            connected is Ok && logger is Ok ==> r is Ok && r->Ok_0.phase_of() == Phase::Handshaking
                && r->Ok_0.id_of() == config.plugin_id@ && r->Ok_0.level_of() == config.log_level,
    {
        match connect_outcome(connected, logger) {
            Err(e) => Err(e),
            Ok(()) => Ok(TransformRunner::new(config.plugin_id, plugin, config.log_level)),
        }
    }

    /// The runner's lifecycle phase.
    pub fn phase(&self) -> (r: Phase)
        ensures
            r == self.phase_of(),
    {
        self.phase
    }

    /// The plugin body.
    pub fn plugin(&self) -> &T {
        &self.plugin
    }

    /// Initializes the plugin, handing it a local sink under the runner's
    /// plugin id, and gives the `Initialize` message to send. A failure of the
    /// plugin ends the runner with `InitError`.
    pub fn start(&mut self) -> (r: Result<TransformMessage, Error>)
        requires
            old(self).phase_of() == Phase::Handshaking,
        ensures
            r is Ok ==> final(self).phase_of() == Phase::Greeting,
            r is Err ==> final(self).phase_of() == Phase::Terminated && r->Err_0 is InitError,
            final(self).id_of() == old(self).id_of(),
            final(self).level_of() == old(self).level_of(),
    {
        let sink = LocalSink::new(self.plugin_id.clone());
        match self.plugin.initialize(self.plugin_id.clone(), self.log_level, sink) {
            Ok(request) => {
                self.phase = Phase::Greeting;
                Ok(TransformMessage::Initialize(request.into_initialize()))
            },
            Err(e) => {
                self.phase = Phase::Terminated;
                Err(Error::InitError(e))
            },
        }
    }

    /// Records whether the `Initialize` message went out: serving starts, or
    /// the runner ends with the I/O error.
    pub fn hello_sent(&mut self, sent: Result<(), IoError>) -> (r: Result<(), Error>)
        requires
            old(self).phase_of() == Phase::Greeting,
        ensures
            r == hello_result(sent),
            r is Ok ==> final(self).phase_of() == Phase::Serving,
            r is Err ==> final(self).phase_of() == Phase::Terminated,
            final(self).id_of() == old(self).id_of(),
            final(self).level_of() == old(self).level_of(),
    {
        let r = hello_outcome(sent);
        if r.is_ok() {
            self.phase = Phase::Serving;
        } else {
            self.phase = Phase::Terminated;
        }
        r
    }

    /// Serves one delivery. Read failures, undecodable frames and messages
    /// without payload are reported and dropped; an `Initialize` echo is
    /// ignored; an event goes to the plugin once and its output is not
    /// forwarded; a shutdown ends the loop with the outcome of the plugin's
    /// shutdown.
    pub fn handle(&mut self, d: Delivery<RuntimeTransformMessage>) -> (r: Step)
        requires
            old(self).phase_of() == Phase::Serving,
        ensures
            match d {
                Delivery::Nothing => r == Step::Continue,
                Delivery::ReceiveFailed(e) => r == Step::Report(Error::IOError(e)),
                Delivery::Undecodable(m) => r == Step::Report(Error::InvalidMessage(m)),
                Delivery::Message(m) => match m.payload {
                    None => r == Step::Report(Error::MissingPayload),
                    Some(RuntimeTransformPayload::Initialize(_)) => r == Step::Continue,
                    Some(RuntimeTransformPayload::Event(_)) => r == Step::Continue || (r is Report && r->Report_0 is TransformError),
                    Some(RuntimeTransformPayload::Shutdown(_)) => r == Step::Finished(Ok(()))
                        || (r is Finished && r->Finished_0 is Err && r->Finished_0->Err_0 is ShutdownError),
                },
            },
            r is Finished <==> final(self).phase_of() == Phase::Terminated,
            !(r is Finished) ==> final(self).phase_of() == Phase::Serving,
            final(self).id_of() == old(self).id_of(),
            final(self).level_of() == old(self).level_of(),
    {
        let msg = match open_delivery(d) {
            Err(step) => return step,
            Ok(m) => m,
        };
        match msg.payload {
            None => Step::Report(Error::MissingPayload),
            Some(RuntimeTransformPayload::Initialize(_)) => Step::Continue,
            Some(RuntimeTransformPayload::Event(event)) => transform_event_outcome(self.plugin.process_event(event)),
            Some(RuntimeTransformPayload::Shutdown(_)) => {
                let step = shutdown_outcome(self.plugin.shutdown());
                self.phase = Phase::Terminated;
                step
            },
        }
    }
}

} // verus!
