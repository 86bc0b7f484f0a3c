//! A minimal Network Time Protocol client library: the 48-byte packet codec,
//! the conversion of protocol timestamps to Unix time, and the computation of
//! round-trip delay and clock offset from one query/response exchange.
pub mod bytes;
pub mod error;
pub mod exchange;
pub mod packet;
pub mod time;

pub use error::NtpError;
pub use exchange::Exchange;
pub use packet::Ntp;
pub use time::UnixTime;
