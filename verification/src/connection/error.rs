use vstd::prelude::*;

verus! {

/// How reading or writing a frame fails.
#[derive(Debug, Clone, Copy, PartialEq, Eq, Hash, Structural)]
pub enum ConnectionError {
    /// The payload is not the encoding of a value of the expected type.
    DecodingFailure,
    /// The value has no frame: its payload is longer than a length prefix can say.
    EncodingFailure,
    /// The transport failed.
    Io,
    /// The transport failed while a frame was being read.
    ConnectionDropped,
    /// The peer closed the stream between two frames.
    ConnectionClosed,
    /// The stream ended before the payload that the length prefix announced.
    InvalidFrameSize,
    /// No connection to the server could be made.
    UnableToConnectToServer,
}

impl ConnectionError {
    /// The error for a read that the transport failed: the regular end of a
    /// connection where the stream ended early, a dropped connection
    /// otherwise.
    pub fn read_failure(unexpected_eof: bool) -> (error: Self)
        ensures
            error == if unexpected_eof {
                ConnectionError::ConnectionClosed
            } else {
                ConnectionError::ConnectionDropped
            },
    {
        if unexpected_eof {
            ConnectionError::ConnectionClosed
        } else {
            ConnectionError::ConnectionDropped
        }
    }
}

} // verus!
