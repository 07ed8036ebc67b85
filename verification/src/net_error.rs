use vstd::prelude::*;

use crate::text::{concat_str, i32_to_decimal, signed_decimal};

verus! {

/// The kinds of I/O failure that the native dialers distinguish.
#[derive(Clone, Copy, Debug, PartialEq, Eq, Structural)]
pub enum IoErrorKind {
    TimedOut,
    ConnectionRefused,
    ConnectionReset,
    ConnectionAborted,
    NotConnected,
    AddrNotAvailable,
    HostUnreachable,
    Interrupted,
    Other,
}

/// Chromium `net::Error` value used by SagerNet socket callbacks.
#[derive(Clone, Copy, Debug, PartialEq, Eq, Hash, Structural)]
pub struct NetError(pub i32);

/// The Chromium error number that a failed I/O operation of `kind` maps to.
pub open spec fn net_error_code_for(kind: IoErrorKind) -> int {
    match kind {
        IoErrorKind::TimedOut => -118,
        IoErrorKind::ConnectionRefused => -102,
        IoErrorKind::ConnectionReset => -101,
        IoErrorKind::ConnectionAborted => -103,
        IoErrorKind::NotConnected => -100,
        IoErrorKind::AddrNotAvailable => -109,
        IoErrorKind::HostUnreachable => -109,
        IoErrorKind::Interrupted => -3,
        IoErrorKind::Other => -104,
    }
}

impl NetError {
    /// Operation was canceled.
    pub fn aborted() -> (r: NetError)
        ensures
            r.0 == -3,
    {
        NetError(-3)
    }

    /// Generic timeout.
    pub fn timed_out() -> (r: NetError)
        ensures
            r.0 == -7,
    {
        NetError(-7)
    }

    /// Peer closed the connection.
    pub fn connection_closed() -> (r: NetError)
        ensures
            r.0 == -100,
    {
        NetError(-100)
    }

    /// Connection was reset.
    pub fn connection_reset() -> (r: NetError)
        ensures
            r.0 == -101,
    {
        NetError(-101)
    }

    /// Connection was refused.
    pub fn connection_refused() -> (r: NetError)
        ensures
            r.0 == -102,
    {
        NetError(-102)
    }

    /// Connection was aborted.
    pub fn connection_aborted() -> (r: NetError)
        ensures
            r.0 == -103,
    {
        NetError(-103)
    }

    /// Generic connection failure.
    pub fn connection_failed() -> (r: NetError)
        ensures
            r.0 == -104,
    {
        NetError(-104)
    }

    /// Address or network is unreachable.
    pub fn address_unreachable() -> (r: NetError)
        ensures
            r.0 == -109,
    {
        NetError(-109)
    }

    /// Connection establishment timed out.
    pub fn connection_timed_out() -> (r: NetError)
        ensures
            r.0 == -118,
    {
        NetError(-118)
    }


    /// Returns the raw Chromium error number.
    pub fn code(self) -> (r: i32)
        ensures
            r == self.0,
    {
        self.0
    }

    /// Maps a kind of I/O failure to the value expected by Cronet's custom
    /// dialers.
    pub fn from_kind(kind: IoErrorKind) -> (r: NetError)
        ensures
            r.0 == net_error_code_for(kind),
    {
        match kind {
            IoErrorKind::TimedOut => NetError(-118),
            IoErrorKind::ConnectionRefused => NetError(-102),
            IoErrorKind::ConnectionReset => NetError(-101),
            IoErrorKind::ConnectionAborted => NetError(-103),
            IoErrorKind::NotConnected => NetError(-100),
            IoErrorKind::AddrNotAvailable => NetError(-109),
            IoErrorKind::HostUnreachable => NetError(-109),
            IoErrorKind::Interrupted => NetError(-3),
            IoErrorKind::Other => NetError(-104),
        }
    }

    /// Maps a Rust I/O error to the value expected by Cronet's custom dialers.
    pub fn from_io(error: &std::io::Error) -> (r: NetError)
        ensures
            r.0 == net_error_code_for(io_kind_of(*error)),
    {
        let kind = io_error_kind(error);
        NetError::from_kind(kind)
    }

    /// Renders the diagnostic text of this error.
    pub fn to_string(&self) -> (s: String)
        ensures
            s@ == "Chromium network error "@ + signed_decimal(self.0 as int),
    {
        let digits = i32_to_decimal(self.0);
        concat_str("Chromium network error ", digits.as_str())
    }
}

#[verifier::external_type_specification]
#[verifier::external_body]
pub struct ExIoError(std::io::Error);

/// The kind that `std::io::Error::kind` reports for an error, among the
/// kinds that the dialers tell apart; every other kind is `Other`.
pub uninterp spec fn io_kind_of(error: std::io::Error) -> IoErrorKind;

/// Reads `std::io::Error::kind` and names the kinds that the dialers tell
/// apart; every other kind becomes `Other`.
#[verifier::external_body]
fn io_error_kind(error: &std::io::Error) -> (r: IoErrorKind)
    ensures
        r == io_kind_of(*error),
{
    match error.kind() {
        std::io::ErrorKind::TimedOut => IoErrorKind::TimedOut,
        std::io::ErrorKind::ConnectionRefused => IoErrorKind::ConnectionRefused,
        std::io::ErrorKind::ConnectionReset => IoErrorKind::ConnectionReset,
        std::io::ErrorKind::ConnectionAborted => IoErrorKind::ConnectionAborted,
        std::io::ErrorKind::NotConnected => IoErrorKind::NotConnected,
        std::io::ErrorKind::AddrNotAvailable => IoErrorKind::AddrNotAvailable,
        std::io::ErrorKind::HostUnreachable => IoErrorKind::HostUnreachable,
        std::io::ErrorKind::Interrupted => IoErrorKind::Interrupted,
        _ => IoErrorKind::Other,
    }
}

} // verus!
