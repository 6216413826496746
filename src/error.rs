//! Errors of the library.

use vstd::prelude::*;

verus! {

/// Every failure that the pipeline and its helpers report.
#[derive(Debug, Clone, PartialEq, Eq)]
pub enum Error {
    /// A failure described by a message.
    Generic(String),
    /// The input bytes could not be opened as a container.
    UnreadableContainer,
    /// The container holds no audio stream.
    NoAudioStream,
    /// Reading packets from the container failed.
    DemuxFailed,
    /// The decoder refused a packet.
    DecodeRejected,
    /// The filter graph could not be configured.
    FilterConfigInvalid,
    /// The encoder refused a frame or could not be configured.
    EncodeRejected,
    /// The destination could not be opened for writing.
    UnwritableDestination,
    /// The container writer was driven out of order.
    WriterMisuse,
    /// No sample format or layout is shared by decoder and encoder.
    UnsupportedFormatConversion,
    /// A rescaled timestamp does not fit in 64 bits.
    TimestampOverflow,
    /// The pipeline was handed an event it was not waiting for.
    UnexpectedEvent,
}

} // verus!
