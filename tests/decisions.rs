use flwrs_plugin::error::{Error, IoError, ShutdownError, SinkError, SourceError};
use flwrs_plugin::message::Delivery;
use flwrs_plugin::runner::{connect_outcome, hello_outcome, open_delivery, shutdown_outcome, Step};
use flwrs_plugin::sink::sink_event_outcome;
use flwrs_plugin::source::fatal_outcome;

#[test]
fn connection_failure_comes_before_logger_failure() {
    assert_eq!(
        connect_outcome(Err(IoError::NotConnected), Err("x".to_string())),
        Err(Error::IOError(IoError::NotConnected))
    );
    assert_eq!(connect_outcome(Ok(()), Err("x".to_string())), Err(Error::SetLoggerError("x".to_string())));
    assert_eq!(connect_outcome(Ok(()), Ok(())), Ok(()));
}

#[test]
fn hello_failure_is_io_error() {
    assert_eq!(hello_outcome(Ok(())), Ok(()));
    assert_eq!(
        hello_outcome(Err(IoError::Transport("reset".to_string()))),
        Err(Error::IOError(IoError::Transport("reset".to_string())))
    );
}

#[test]
fn deliveries_open_as_expected() {
    assert_eq!(open_delivery::<u8>(Delivery::Nothing), Err(Step::Continue));
    assert_eq!(open_delivery::<u8>(Delivery::Message(7)), Ok(7));
    assert_eq!(
        open_delivery::<u8>(Delivery::Undecodable("bad".to_string())),
        Err(Step::Report(Error::InvalidMessage("bad".to_string())))
    );
}

#[test]
fn shutdown_and_event_outcomes() {
    assert_eq!(shutdown_outcome(Ok(())), Step::Finished(Ok(())));
    assert_eq!(
        shutdown_outcome(Err(ShutdownError::new("s".to_string()))),
        Step::Finished(Err(Error::ShutdownError(ShutdownError::new("s".to_string()))))
    );
    assert_eq!(sink_event_outcome(Ok(())), Step::Continue);
    assert_eq!(
        sink_event_outcome(Err(SinkError::new("e".to_string()))),
        Step::Report(Error::SinkError(SinkError::new("e".to_string())))
    );
}

#[test]
fn fatal_failure_keeps_cause_unless_shutdown_fails() {
    let cause = Error::SourceError(SourceError::new("c".to_string()));
    assert_eq!(fatal_outcome(cause, Ok(())), Err(Error::SourceError(SourceError::new("c".to_string()))));
    assert_eq!(
        fatal_outcome(Error::MissingPayload, Err(ShutdownError::new("s".to_string()))),
        Err(Error::ShutdownError(ShutdownError::new("s".to_string())))
    );
}
