use vstd::prelude::*;

use crate::bytes::{
    be_bytes, be_value, lemma_be_value_of_bytes, lemma_be_value_subrange,
    lemma_bytes_of_be_value, read_be_u32, write_be_u32,
};
use crate::error::NtpError;
use crate::time::{
    display_of, format_time, from_nanos, half_floor, ntp_to_unix, to_calendar_time, UnixTime,
};

verus! {

/// Size in bytes of an NTP header on the wire.
pub const NTP_SIZE: usize = 48;

/// Mode number of a client request.
pub const MODE_CLIENT: u8 = 3;

/// Default poll exponent of a request: 2^10 = 1024 seconds.
pub const DEFAULT_POLL: u8 = 10;

/// Default precision carried by a request.
pub const DEFAULT_PRECISION: u8 = 32;

/// The 48-byte NTP header. Multi-byte fields are big-endian on the wire; each
/// timestamp is a pair of seconds since 1900-01-01 (`_s`) and a 32-bit
/// fraction of a second (`_f`).
#[derive(Debug, Clone, Copy, PartialEq, Eq, Structural)]
pub struct Ntp {
    /// Leap indicator (2 bits), version (3 bits) and mode (3 bits).
    pub leap_version_mode: u8,
    pub stratum: u8,
    pub poll: u8,
    pub precision: u8,
    pub root_delay: u32,
    pub root_dispersion: u32,
    pub reference_id: u32,
    pub reference_t_s: u32,
    pub reference_t_f: u32,
    pub origin_t_s: u32,
    pub origin_t_f: u32,
    pub receive_t_s: u32,
    pub receive_t_f: u32,
    pub transmit_t_s: u32,
    pub transmit_t_f: u32,
}

/// The flags byte with `leap` in its top two bits, `version` in the next
/// three and `mode` in the low three, as the shifts `leap << 6`,
/// `version << 3` and a bitwise or compute it on a byte.
pub open spec fn pack_flags(leap: u8, version: u8, mode: u8) -> u8 {
    ((leap << 6u8) | (version << 3u8) | mode) as u8
}

/// Leap indicator of a flags byte.
pub open spec fn leap_of(flags: u8) -> int {
    flags as int / 64
}

/// Version number of a flags byte.
pub open spec fn version_of(flags: u8) -> int {
    flags as int / 8 % 8
}

/// Mode of a flags byte.
pub open spec fn mode_of(flags: u8) -> int {
    flags as int % 8
}

impl Ntp {
    /// The wire form of the packet: the four one-byte fields, then the eleven
    /// 32-bit fields in order, each big-endian.
    pub open spec fn wire(self) -> Seq<u8> {
        seq![self.leap_version_mode, self.stratum, self.poll, self.precision]
            + be_bytes(self.root_delay) + be_bytes(self.root_dispersion) + be_bytes(
            self.reference_id,
        ) + be_bytes(self.reference_t_s) + be_bytes(self.reference_t_f) + be_bytes(
            self.origin_t_s,
        ) + be_bytes(self.origin_t_f) + be_bytes(self.receive_t_s) + be_bytes(self.receive_t_f)
            + be_bytes(self.transmit_t_s) + be_bytes(self.transmit_t_f)
    }

    /// The packet that the 48 bytes `b` hold.
    pub open spec fn from_wire(b: Seq<u8>) -> Ntp {
        Ntp {
            leap_version_mode: b[0],
            stratum: b[1],
            poll: b[2],
            precision: b[3],
            root_delay: be_value(b, 4),
            root_dispersion: be_value(b, 8),
            reference_id: be_value(b, 12),
            reference_t_s: be_value(b, 16),
            reference_t_f: be_value(b, 20),
            origin_t_s: be_value(b, 24),
            origin_t_f: be_value(b, 28),
            receive_t_s: be_value(b, 32),
            receive_t_f: be_value(b, 36),
            transmit_t_s: be_value(b, 40),
            transmit_t_f: be_value(b, 44),
        }
    }

    /// Whether the origin timestamp of this reply is the transmit timestamp
    /// of `request`.
    pub open spec fn answers(self, request: Ntp) -> bool {
        self.origin_t_s == request.transmit_t_s && self.origin_t_f == request.transmit_t_f
    }

    /// The request this client sends: leap indicator 0, the given version,
    /// client mode, stratum 0, the default poll and precision, and every
    /// other field zero.
    pub fn init_client(version: u8) -> (r: Ntp)
        ensures
            r.leap_version_mode == pack_flags(0, version, MODE_CLIENT),
            version < 8 ==> r.leap_version_mode == version * 8 + MODE_CLIENT,
            r.stratum == 0,
            r.poll == DEFAULT_POLL,
            r.precision == DEFAULT_PRECISION,
            r.root_delay == 0 && r.root_dispersion == 0 && r.reference_id == 0,
            r.reference_t_s == 0 && r.reference_t_f == 0,
            r.origin_t_s == 0 && r.origin_t_f == 0,
            r.receive_t_s == 0 && r.receive_t_f == 0,
            r.transmit_t_s == 0 && r.transmit_t_f == 0,
    {
        Ntp {
            leap_version_mode: Ntp::leap_version_mode(0, version, MODE_CLIENT),
            stratum: 0,
            poll: DEFAULT_POLL,
            precision: DEFAULT_PRECISION,
            root_delay: 0,
            root_dispersion: 0,
            reference_id: 0,
            reference_t_s: 0,
            reference_t_f: 0,
            origin_t_s: 0,
            origin_t_f: 0,
            receive_t_s: 0,
            receive_t_f: 0,
            transmit_t_s: 0,
            transmit_t_f: 0,
        }
    }

    /// Packs a flags byte. With every part in range, each can be read back.
    pub fn leap_version_mode(leap: u8, version: u8, mode: u8) -> (r: u8)
        ensures
            r == pack_flags(leap, version, mode),
            leap < 4 && version < 8 && mode < 8 ==> r == leap * 64 + version * 8 + mode,
            leap < 4 && version < 8 && mode < 8 ==> leap_of(r) == leap && version_of(r)
                == version && mode_of(r) == mode,
    {
        let mut lvm: u8 = leap << 6u8;
        lvm = lvm | (version << 3u8);
        lvm = lvm | mode;
        assert(leap < 4 && version < 8 && mode < 8 ==> lvm == leap * 64 + version * 8 + mode)
            by (bit_vector)
            requires
                lvm == ((leap << 6u8) | (version << 3u8)) | mode,
        ;
        lvm
    }

    /// Reads the packet from exactly 48 bytes.
    fn read_fields(b: &[u8]) -> (r: Ntp)
        requires
            b@.len() == NTP_SIZE,
        ensures
            r == Ntp::from_wire(b@),
    {
        Ntp {
            leap_version_mode: b[0],
            stratum: b[1],
            poll: b[2],
            precision: b[3],
            root_delay: read_be_u32(b, 4),
            root_dispersion: read_be_u32(b, 8),
            reference_id: read_be_u32(b, 12),
            reference_t_s: read_be_u32(b, 16),
            reference_t_f: read_be_u32(b, 20),
            origin_t_s: read_be_u32(b, 24),
            origin_t_f: read_be_u32(b, 28),
            receive_t_s: read_be_u32(b, 32),
            receive_t_f: read_be_u32(b, 36),
            transmit_t_s: read_be_u32(b, 40),
            transmit_t_f: read_be_u32(b, 44),
        }
    }

    /// Decodes a 48-byte packet.
    pub fn from_slice(slice: [u8; 48]) -> (r: Ntp)
        ensures
            r == Ntp::from_wire(slice@),
    {
        Ntp::read_fields(slice.as_slice())
    }

    /// Decodes a received datagram: `MalformedPacket` unless it is exactly 48
    /// bytes long.
    pub fn decode(bytes: &[u8]) -> (r: Result<Ntp, NtpError>)
        ensures
            r is Ok <==> bytes@.len() == NTP_SIZE,
            r matches Ok(p) ==> p == Ntp::from_wire(bytes@),
            r is Err ==> r == Err::<Ntp, NtpError>(NtpError::MalformedPacket),
    {
        if bytes.len() != NTP_SIZE {
            Err(NtpError::MalformedPacket)
        } else {
            Ok(Ntp::read_fields(bytes))
        }
    }

    /// Encodes the packet in its 48-byte wire form.
    pub fn to_slice(&self) -> (r: [u8; 48])
        ensures
            r@ == self.wire(),
    {
        let a = write_be_u32(self.root_delay);
        let b = write_be_u32(self.root_dispersion);
        let c = write_be_u32(self.reference_id);
        let d = write_be_u32(self.reference_t_s);
        let e = write_be_u32(self.reference_t_f);
        let f = write_be_u32(self.origin_t_s);
        let g = write_be_u32(self.origin_t_f);
        let h = write_be_u32(self.receive_t_s);
        let i = write_be_u32(self.receive_t_f);
        let j = write_be_u32(self.transmit_t_s);
        let k = write_be_u32(self.transmit_t_f);
        let r: [u8; 48] = [
            self.leap_version_mode, self.stratum, self.poll, self.precision,
            a[0], a[1], a[2], a[3], b[0], b[1], b[2], b[3], c[0], c[1], c[2], c[3],
            d[0], d[1], d[2], d[3], e[0], e[1], e[2], e[3], f[0], f[1], f[2], f[3],
            g[0], g[1], g[2], g[3], h[0], h[1], h[2], h[3], i[0], i[1], i[2], i[3],
            j[0], j[1], j[2], j[3], k[0], k[1], k[2], k[3],
        ];
        assert(r@ =~= self.wire());
        r
    }
}

impl Ntp {
    /// The reference timestamp as a Unix instant.
    pub fn reference_datetime(&self) -> (r: UnixTime)
        ensures
            r == ntp_to_unix(self.reference_t_s, self.reference_t_f),
            r.normalized(),
    {
        to_calendar_time(self.reference_t_s, self.reference_t_f)
    }

    /// The origin timestamp as a Unix instant.
    pub fn origin_datetime(&self) -> (r: UnixTime)
        ensures
            r == ntp_to_unix(self.origin_t_s, self.origin_t_f),
            r.normalized(),
    {
        to_calendar_time(self.origin_t_s, self.origin_t_f)
    }

    /// The receive timestamp as a Unix instant.
    pub fn receive_datetime(&self) -> (r: UnixTime)
        ensures
            r == ntp_to_unix(self.receive_t_s, self.receive_t_f),
            r.normalized(),
    {
        to_calendar_time(self.receive_t_s, self.receive_t_f)
    }

    /// The transmit timestamp as a Unix instant.
    pub fn transmit_datetime(&self) -> (r: UnixTime)
        ensures
            r == ntp_to_unix(self.transmit_t_s, self.transmit_t_f),
            r.normalized(),
    {
        to_calendar_time(self.transmit_t_s, self.transmit_t_f)
    }

    /// Whether this reply echoes `request`'s transmit timestamp in its origin
    /// timestamp, as a genuine answer to that request does.
    pub fn is_reply_to(&self, request: &Ntp) -> (r: bool)
        ensures
            r == self.answers(*request),
    {
        self.origin_t_s == request.transmit_t_s && self.origin_t_f == request.transmit_t_f
    }

    /// Renders the server's time at the midpoint of the exchange: the
    /// transmit timestamp plus half of `delta` (nanoseconds, halved rounding
    /// down), as `[YYYY-MM-DD|HH:MM:SS,fraction]`.
    pub fn ntp_format(&self, delta: i128) -> (r: Result<String, NtpError>)
        ensures
            ({
                let n = ntp_to_unix(self.transmit_t_s, self.transmit_t_f).total_nanos() + delta
                    as int / 2;
                &&& r is Ok <==> display_of(n) is Ok
                &&& r matches Ok(s) ==> display_of(n) == Ok::<Seq<char>, NtpError>(s@)
                &&& r is Err ==> r == Err::<String, NtpError>(NtpError::OutOfRange)
            }),
    {
        let t = self.transmit_datetime().as_nanos() + half_floor(delta);
        match from_nanos(t) {
            Err(e) => Err(e),
            Ok(u) => format_time(u),
        }
    }
}

/// Decoding the encoding of any packet gives the packet back.
pub proof fn lemma_decode_encode(p: Ntp)
    ensures
        Ntp::from_wire(p.wire()) == p,
{
    let w = p.wire();
    let words = seq![
        p.root_delay, p.root_dispersion, p.reference_id, p.reference_t_s, p.reference_t_f,
        p.origin_t_s, p.origin_t_f, p.receive_t_s, p.receive_t_f, p.transmit_t_s,
        p.transmit_t_f,
    ];
    assert forall|k: int| 0 <= k < 11 implies #[trigger] be_bytes(words[k]).len() == 4 by {
        lemma_be_value_of_bytes(words[k]);
    }
    assert(w.len() == 48);
    assert forall|k: int| 0 <= k < 11 implies be_value(w, 4 + 4 * k) == words[k] by {
        lemma_be_value_of_bytes(words[k]);
        assert(w.subrange(4 + 4 * k, 8 + 4 * k) =~= be_bytes(words[k]));
        lemma_be_value_subrange(w, 4 + 4 * k);
    }
    assert(be_value(w, 4) == words[0]);
    assert(be_value(w, 8) == words[1]);
    assert(be_value(w, 12) == words[2]);
    assert(be_value(w, 16) == words[3]);
    assert(be_value(w, 20) == words[4]);
    assert(be_value(w, 24) == words[5]);
    assert(be_value(w, 28) == words[6]);
    assert(be_value(w, 32) == words[7]);
    assert(be_value(w, 36) == words[8]);
    assert(be_value(w, 40) == words[9]);
    assert(be_value(w, 44) == words[10]);
}

/// Encoding the packet decoded from any 48 bytes gives those bytes back.
pub proof fn lemma_encode_decode(b: Seq<u8>)
    requires
        b.len() == NTP_SIZE,
    ensures
        Ntp::from_wire(b).wire() == b,
{
    let p = Ntp::from_wire(b);
    lemma_bytes_of_be_value(b, 4);
    lemma_bytes_of_be_value(b, 8);
    lemma_bytes_of_be_value(b, 12);
    lemma_bytes_of_be_value(b, 16);
    lemma_bytes_of_be_value(b, 20);
    lemma_bytes_of_be_value(b, 24);
    lemma_bytes_of_be_value(b, 28);
    lemma_bytes_of_be_value(b, 32);
    lemma_bytes_of_be_value(b, 36);
    lemma_bytes_of_be_value(b, 40);
    lemma_bytes_of_be_value(b, 44);
    assert(seq![b[0], b[1], b[2], b[3]] =~= b.subrange(0, 4));
    assert(b.subrange(0, 8) =~= b.subrange(0, 4) + b.subrange(4, 8));
    assert(b.subrange(0, 12) =~= b.subrange(0, 8) + b.subrange(8, 12));
    assert(b.subrange(0, 16) =~= b.subrange(0, 12) + b.subrange(12, 16));
    assert(b.subrange(0, 20) =~= b.subrange(0, 16) + b.subrange(16, 20));
    assert(b.subrange(0, 24) =~= b.subrange(0, 20) + b.subrange(20, 24));
    assert(b.subrange(0, 28) =~= b.subrange(0, 24) + b.subrange(24, 28));
    assert(b.subrange(0, 32) =~= b.subrange(0, 28) + b.subrange(28, 32));
    assert(b.subrange(0, 36) =~= b.subrange(0, 32) + b.subrange(32, 36));
    assert(b.subrange(0, 40) =~= b.subrange(0, 36) + b.subrange(36, 40));
    assert(b.subrange(0, 44) =~= b.subrange(0, 40) + b.subrange(40, 44));
    assert(b.subrange(0, 48) =~= b.subrange(0, 44) + b.subrange(44, 48));
    assert(b.subrange(0, 48) =~= b);
    assert(p.wire() == b);
}

} // verus!
