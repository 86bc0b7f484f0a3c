use vstd::prelude::*;

use crate::error::NtpError;
use crate::packet::Ntp;
use crate::time::{half_floor, ntp_to_unix, UnixTime};

verus! {

/// Round-trip network delay, in nanoseconds, of an exchange sent at `t0`,
/// received by the server at `t1`, answered at `t2` and received back at
/// `t3`: the local round trip `t3 - t0` less `t1 - t2`. As `t1 - t2` is the
/// server's processing time negated, that time counts towards the result.
pub open spec fn delay(t0: int, t1: int, t2: int, t3: int) -> int {
    (t3 - t0) - (t1 - t2)
}

/// Clock offset, in nanoseconds, of the server against the client: half the
/// outbound skew plus half the inbound skew, each halved rounding down.
pub open spec fn offset(t0: int, t1: int, t2: int, t3: int) -> int {
    (t1 - t0) / 2 + (t2 - t3) / 2
}

/// The outcome of one query: the decoded reply, the round-trip delay `delta`
/// and the clock offset `theta`, both in nanoseconds.
#[derive(Debug, Clone, Copy, PartialEq, Eq, Structural)]
pub struct Exchange {
    pub reply: Ntp,
    pub delta: i128,
    pub theta: i128,
}

/// The round-trip delay of an exchange, from its four instants.
pub fn round_trip_delay(
    sent: &UnixTime,
    server_receive: &UnixTime,
    server_transmit: &UnixTime,
    received: &UnixTime,
) -> (r: i128)
    ensures
        r == delay(
            sent.total_nanos(),
            server_receive.total_nanos(),
            server_transmit.total_nanos(),
            received.total_nanos(),
        ),
{
    (received.as_nanos() - sent.as_nanos()) - (server_receive.as_nanos()
        - server_transmit.as_nanos())
}

/// The clock offset of an exchange, from its four instants.
pub fn clock_offset(
    sent: &UnixTime,
    server_receive: &UnixTime,
    server_transmit: &UnixTime,
    received: &UnixTime,
) -> (r: i128)
    ensures
        r == offset(
            sent.total_nanos(),
            server_receive.total_nanos(),
            server_transmit.total_nanos(),
            received.total_nanos(),
        ),
{
    half_floor(server_receive.as_nanos() - sent.as_nanos()) + half_floor(
        server_transmit.as_nanos() - received.as_nanos(),
    )
}

impl Exchange {
    /// Completes an exchange from the server's reply and the local instants at
    /// which the request was sent and the reply received.
    pub fn from_reply(reply: Ntp, sent: UnixTime, received: UnixTime) -> (r: Exchange)
        ensures
            r.reply == reply,
            r.delta == delay(
                sent.total_nanos(),
                ntp_to_unix(reply.receive_t_s, reply.receive_t_f).total_nanos(),
                ntp_to_unix(reply.transmit_t_s, reply.transmit_t_f).total_nanos(),
                received.total_nanos(),
            ),
            r.theta == offset(
                sent.total_nanos(),
                ntp_to_unix(reply.receive_t_s, reply.receive_t_f).total_nanos(),
                ntp_to_unix(reply.transmit_t_s, reply.transmit_t_f).total_nanos(),
                received.total_nanos(),
            ),
    {
        let t1 = reply.receive_datetime();
        let t2 = reply.transmit_datetime();
        let delta = round_trip_delay(&sent, &t1, &t2, &received);
        let theta = clock_offset(&sent, &t1, &t2, &received);
        Exchange { reply, delta, theta }
    }

    /// Decodes the datagram received in answer to `request` and completes
    /// the exchange from it: `MalformedPacket` unless the datagram is exactly
    /// 48 bytes long, else `UnmatchedReply` unless its origin timestamp echoes
    /// the request's transmit timestamp.
    pub fn from_datagram(request: &Ntp, bytes: &[u8], sent: UnixTime, received: UnixTime) -> (r:
        Result<Exchange, NtpError>)
        ensures
            r is Ok <==> bytes@.len() == 48 && Ntp::from_wire(bytes@).answers(*request),
            bytes@.len() != 48 ==> r == Err::<Exchange, NtpError>(NtpError::MalformedPacket),
            bytes@.len() == 48 && !Ntp::from_wire(bytes@).answers(*request) ==> r == Err::<
                Exchange,
                NtpError,
            >(NtpError::UnmatchedReply),
            r matches Ok(x) ==> ({
                let p = Ntp::from_wire(bytes@);
                let t1 = ntp_to_unix(p.receive_t_s, p.receive_t_f).total_nanos();
                let t2 = ntp_to_unix(p.transmit_t_s, p.transmit_t_f).total_nanos();
                &&& x.reply == p
                &&& x.delta == delay(sent.total_nanos(), t1, t2, received.total_nanos())
                &&& x.theta == offset(sent.total_nanos(), t1, t2, received.total_nanos())
            }),
    {
        match Ntp::decode(bytes) {
            Err(e) => Err(e),
            Ok(p) => {
                if !p.is_reply_to(request) {
                    Err(NtpError::UnmatchedReply)
                } else {
                    Ok(Exchange::from_reply(p, sent, received))
                }
            },
        }
    }
}

/// The computed offset differs from the exact midpoint formula
/// `((t1 - t0) + (t2 - t3)) / 2` by less than one nanosecond either way:
/// twice the offset falls short of the exact sum by 0, 1 or 2 nanoseconds.
pub proof fn lemma_offset_rounding(t0: int, t1: int, t2: int, t3: int)
    ensures
        0 <= (t1 - t0) + (t2 - t3) - 2 * offset(t0, t1, t2, t3) <= 2,
{
}

/// When the server's clock agrees with the client's, the outbound and the
/// inbound legs take the same time (`t1 - t0 == t3 - t2`) and the offset is
/// zero, or one nanosecond below it where that time is odd.
pub proof fn lemma_offset_symmetric(t0: int, t1: int, t2: int, t3: int)
    requires
        t1 - t0 == t3 - t2,
    ensures
        (t1 - t0) % 2 == 0 ==> offset(t0, t1, t2, t3) == 0,
        (t1 - t0) % 2 == 1 ==> offset(t0, t1, t2, t3) == -1,
{
}

/// With no processing time on the server (`t1 == t2`) and the reply received
/// after the request was sent, the delay is exactly the elapsed local time,
/// and so positive.
pub proof fn lemma_delay_ideal(t0: int, t1: int, t2: int, t3: int)
    requires
        t1 == t2,
        t0 < t3,
    ensures
        delay(t0, t1, t2, t3) == t3 - t0,
        delay(t0, t1, t2, t3) > 0,
{
}

} // verus!
