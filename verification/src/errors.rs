//! Failure taxonomy of a publishing run and its disposition policy:
//! infrastructure failures abort the whole run, data failures are skipped.

use vstd::prelude::*;

verus! {

/// Everything that can go wrong during a run.
#[derive(Clone, Copy, Debug, PartialEq, Eq, Structural)]
pub enum PublishError {
    /// The configuration is unusable, or a required credential is absent.
    ConfigurationError,
    /// The broker connection or handshake was rejected.
    ConnectionError,
    /// The producer could not be created on the topic.
    ProducerCreationError,
    /// The broker rejected or failed to acknowledge a message.
    SendError,
    /// One line of input is not valid text.
    LineDecodeError,
    /// The input file could not be opened.
    FileOpenError,
}

/// Whether a failure aborts the whole run.
///
/// The four infrastructure failures are fatal; a line that fails to decode
/// is dropped and the run continues; a missing input file soft-skips the
/// loop and the run still ends with a normal summary.
pub fn is_fatal(e: &PublishError) -> (r: bool)
    ensures
        r == (e is ConfigurationError || e is ConnectionError || e is ProducerCreationError
            || e is SendError),
{
    match e {
        PublishError::ConfigurationError => true,
        PublishError::ConnectionError => true,
        PublishError::ProducerCreationError => true,
        PublishError::SendError => true,
        PublishError::LineDecodeError => false,
        PublishError::FileOpenError => false,
    }
}

/// The process exit code a failure maps to: nonzero exactly for the fatal
/// kinds, zero for the ones the run recovers from.
pub fn exit_code(e: &PublishError) -> (r: i32)
    ensures
        (r == 1i32) == (e is ConfigurationError || e is ConnectionError
            || e is ProducerCreationError || e is SendError),
        r == 1i32 || r == 0i32,
{
    if is_fatal(e) {
        1
    } else {
        0
    }
}

/// A short diagnostic for each failure kind.
pub fn describe(e: &PublishError) -> (r: String)
    ensures
        e is ConfigurationError ==> r@ == "configuration error: no usable credential"@,
        e is ConnectionError ==> r@ == "Failed to build pulsar client"@,
        e is ProducerCreationError ==> r@ == "Failed to create producer"@,
        e is SendError ==> r@ == "Failed to send message"@,
        e is LineDecodeError ==> r@ == "line is not valid text"@,
        e is FileOpenError ==> r@ == "could not open input file"@,
{
    match e {
        PublishError::ConfigurationError => "configuration error: no usable credential".to_owned(),
        PublishError::ConnectionError => "Failed to build pulsar client".to_owned(),
        PublishError::ProducerCreationError => "Failed to create producer".to_owned(),
        PublishError::SendError => "Failed to send message".to_owned(),
        PublishError::LineDecodeError => "line is not valid text".to_owned(),
        PublishError::FileOpenError => "could not open input file".to_owned(),
    }
}

} // verus!
