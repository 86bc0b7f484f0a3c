use vstd::prelude::*;

verus! {

/// Errors surfaced by the codec and by the timestamp conversions.
#[derive(Debug, Clone, Copy, PartialEq, Eq, Structural)]
pub enum NtpError {
    /// A packet that is not exactly 48 bytes long.
    MalformedPacket,
    /// An instant outside the range that the calendar can represent.
    OutOfRange,
    /// A reply whose origin timestamp does not echo the request's transmit
    /// timestamp: stale, or not an answer to that request.
    UnmatchedReply,
}

} // verus!
