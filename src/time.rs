use vstd::prelude::*;

use crate::error::NtpError;

verus! {

/// Seconds from the protocol epoch (1900-01-01) to the Unix epoch (1970-01-01).
pub const NTP_TIMESTAMP_DELTA: i64 = 2208988800;

/// Nanoseconds in one second.
pub const NANOS_PER_SEC: u32 = 1_000_000_000;

/// The divisor that turns a 32-bit protocol fraction into nanoseconds. One
/// fraction unit is about 0.23 ns, so dividing by 23 is a coarse
/// approximation of the exact `fraction * 10^9 / 2^32` scaling; it is kept so
/// that decoded instants agree with the established behaviour of this client.
pub const FRACTION_DIVISOR: u32 = 23;

/// An instant as whole seconds since 1970-01-01T00:00:00 UTC plus a count of
/// nanoseconds. Instants built by this library keep `nanos` below one second;
/// any other value is read as `secs` seconds plus `nanos` nanoseconds.
///
/// Signed durations between instants are plain `i128` nanosecond counts.
#[derive(Debug, Clone, Copy, PartialEq, Eq, Structural)]
pub struct UnixTime {
    pub secs: i64,
    pub nanos: u32,
}

impl UnixTime {
    /// The instant as nanoseconds since the Unix epoch.
    pub open spec fn total_nanos(self) -> int {
        self.secs * NANOS_PER_SEC + self.nanos
    }

    /// Whether the sub-second part is below one second.
    pub open spec fn normalized(self) -> bool {
        self.nanos < NANOS_PER_SEC
    }

    /// The instant as a nanosecond count.
    pub fn as_nanos(&self) -> (r: i128)
        ensures
            r == self.total_nanos(),
    {
        self.secs as i128 * 1_000_000_000i128 + self.nanos as i128
    }
}

/// Whether `n` nanoseconds since the Unix epoch fall in a second that an
/// `i64` can count.
pub open spec fn representable(n: int) -> bool {
    i64::MIN <= n / (NANOS_PER_SEC as int) <= i64::MAX
}

/// The instant `seconds` + `fraction` of the protocol time scale, on the Unix
/// time scale.
pub open spec fn ntp_to_unix(seconds: u32, fraction: u32) -> UnixTime {
    UnixTime {
        secs: (seconds - NTP_TIMESTAMP_DELTA) as i64,
        nanos: (fraction / FRACTION_DIVISOR) as u32,
    }
}

/// Converts a protocol timestamp (seconds since 1900-01-01 and a 32-bit
/// fraction of a second) to Unix time. Every such timestamp is representable.
pub fn to_calendar_time(seconds: u32, fraction: u32) -> (r: UnixTime)
    ensures
        r == ntp_to_unix(seconds, fraction),
        r.normalized(),
{
    UnixTime { secs: seconds as i64 - NTP_TIMESTAMP_DELTA, nanos: fraction / FRACTION_DIVISOR }
}

/// The normalized instant `n` nanoseconds after the Unix epoch, or
/// `OutOfRange` where its second does not fit an `i64`.
pub fn from_nanos(n: i128) -> (r: Result<UnixTime, NtpError>)
    ensures
        r is Ok <==> representable(n as int),
        r is Err ==> r == Err::<UnixTime, NtpError>(NtpError::OutOfRange),
        r matches Ok(t) ==> t.total_nanos() == n && t.normalized(),
{
    let b: u128 = 1_000_000_000;
    let (q, rem): (i128, u128) = if n >= 0 {
        let m = n as u128;
        ((m / b) as i128, m % b)
    } else {
        let m: u128 = if n == i128::MIN {
            0x8000_0000_0000_0000_0000_0000_0000_0000u128
        } else {
            (-n) as u128
        };
        if m % b == 0 {
            (-((m / b) as i128), 0)
        } else {
            (-((m / b) as i128) - 1, b - m % b)
        }
    };
    assert(q == n as int / NANOS_PER_SEC as int && rem == n as int % NANOS_PER_SEC as int);
    if q < i64::MIN as i128 || q > i64::MAX as i128 {
        Err(NtpError::OutOfRange)
    } else {
        Ok(UnixTime { secs: q as i64, nanos: rem as u32 })
    }
}

/// Half of `x`, rounded down: the halving of a signed duration that chrono's
/// `TimeDelta / 2` performs.
pub fn half_floor(x: i128) -> (r: i128)
    ensures
        r == x as int / 2,
{
    if x >= 0 {
        (x as u128 / 2) as i128
    } else {
        let y: i128 = -(x + 1);
        -((y as u128 / 2) as i128) - 1
    }
}

/// The text that chrono renders, with the strftime-style `pattern`, for the
/// instant `secs` seconds and `nanos` nanoseconds after the Unix epoch in UTC;
/// `None` where chrono cannot represent that instant.
pub uninterp spec fn timestamp_text(secs: int, nanos: int, pattern: Seq<char>) -> Option<
    Seq<char>,
>;

/// Relies on chrono's `DateTime::<Utc>::from_timestamp`, which gives `None` for
/// an instant that it cannot represent, and on its `format(pattern)` rendering:
/// the result depends on the three arguments alone. Only the display pattern
/// is admitted, as rendering a pattern that chrono cannot parse panics.
#[verifier::external_body]
fn render_timestamp(secs: i64, nanos: u32, pattern: &str) -> (r: Option<String>)
    requires
        pattern@ == display_pattern(),
    ensures
        r is Some <==> timestamp_text(secs as int, nanos as int, pattern@) is Some,
        r matches Some(s) ==> s@ == timestamp_text(secs as int, nanos as int, pattern@)->0,
{
    match chrono::DateTime::from_timestamp(secs, nanos) {
        Some(t) => Some(t.format(pattern).to_string()),
        None => None,
    }
}

/// The display pattern `[YYYY-MM-DD|HH:MM:SS,fraction]`.
pub open spec fn display_pattern() -> Seq<char> {
    "[%Y-%m-%d|%H:%M:%S,%f]"@
}

/// What `format_time` gives for an instant of `n` nanoseconds since the Unix epoch.
pub open spec fn display_of(n: int) -> Result<Seq<char>, NtpError> {
    if !representable(n) {
        Err(NtpError::OutOfRange)
    } else {
        match timestamp_text(
            n / (NANOS_PER_SEC as int),
            n % (NANOS_PER_SEC as int),
            display_pattern(),
        ) {
            Some(s) => Ok(s),
            None => Err(NtpError::OutOfRange),
        }
    }
}

/// Renders `t` as `[YYYY-MM-DD|HH:MM:SS,fraction]` in UTC, or `OutOfRange`
/// where the calendar cannot represent it.
pub fn format_time(t: UnixTime) -> (r: Result<String, NtpError>)
    ensures
        r is Ok <==> display_of(t.total_nanos()) is Ok,
        r matches Ok(s) ==> display_of(t.total_nanos()) == Ok::<Seq<char>, NtpError>(s@),
        r is Err ==> r == Err::<String, NtpError>(NtpError::OutOfRange),
{
    match from_nanos(t.as_nanos()) {
        Err(e) => Err(e),
        Ok(n) => match render_timestamp(n.secs, n.nanos, "[%Y-%m-%d|%H:%M:%S,%f]") {
            Some(s) => Ok(s),
            None => Err(NtpError::OutOfRange),
        },
    }
}

/// The instant `theta` nanoseconds before `now`, or `OutOfRange` where its
/// second does not fit an `i64`.
pub fn corrected_time(now: UnixTime, theta: i128) -> (r: Result<UnixTime, NtpError>)
    ensures
        r is Ok <==> representable(now.total_nanos() - theta),
        r matches Ok(t) ==> t.total_nanos() == now.total_nanos() - theta && t.normalized(),
        r is Err ==> r == Err::<UnixTime, NtpError>(NtpError::OutOfRange),
{
    match now.as_nanos().checked_sub(theta) {
        None => Err(NtpError::OutOfRange),
        Some(n) => from_nanos(n),
    }
}

/// Renders `now - theta` as `[YYYY-MM-DD|HH:MM:SS,fraction]`.
pub fn format_corrected_time(now: UnixTime, theta: i128) -> (r: Result<String, NtpError>)
    ensures
        r is Ok <==> display_of(now.total_nanos() - theta) is Ok,
        r matches Ok(s) ==> display_of(now.total_nanos() - theta) == Ok::<Seq<char>, NtpError>(
            s@,
        ),
        r is Err ==> r == Err::<String, NtpError>(NtpError::OutOfRange),
{
    match corrected_time(now, theta) {
        Err(e) => Err(e),
        Ok(t) => format_time(t),
    }
}

} // verus!
