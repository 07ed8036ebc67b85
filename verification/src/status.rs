use vstd::prelude::*;

verus! {

/// Current phase of a Cronet URL request.
#[derive(Clone, Copy, Debug, PartialEq, Eq, Structural)]
pub enum RequestStatus {
    /// No active network operation.
    Idle,
    /// Waiting for a stalled socket pool.
    WaitingForStalledSocketPool,
    /// Waiting for an available socket.
    WaitingForAvailableSocket,
    /// Waiting for a network delegate.
    WaitingForDelegate,
    /// Waiting for the cache.
    WaitingForCache,
    /// Downloading a proxy auto-configuration file.
    DownloadingPacFile,
    /// Resolving a proxy.
    ResolvingProxyForUrl,
    /// Resolving a host from PAC.
    ResolvingHostInPacFile,
    /// Establishing a proxy tunnel.
    EstablishingProxyTunnel,
    /// Resolving the origin host.
    ResolvingHost,
    /// Connecting.
    Connecting,
    /// Performing a TLS handshake.
    SslHandshake,
    /// Sending request data.
    SendingRequest,
    /// Waiting for response headers.
    WaitingForResponse,
    /// Reading the response body.
    ReadingResponse,
    /// SDK-specific or invalid status value.
    Unknown(i32),
}

/// The native status number of a known phase, in the order of the native enum.
pub open spec fn status_index(status: RequestStatus) -> int {
    match status {
        RequestStatus::Idle => 0,
        RequestStatus::WaitingForStalledSocketPool => 1,
        RequestStatus::WaitingForAvailableSocket => 2,
        RequestStatus::WaitingForDelegate => 3,
        RequestStatus::WaitingForCache => 4,
        RequestStatus::DownloadingPacFile => 5,
        RequestStatus::ResolvingProxyForUrl => 6,
        RequestStatus::ResolvingHostInPacFile => 7,
        RequestStatus::EstablishingProxyTunnel => 8,
        RequestStatus::ResolvingHost => 9,
        RequestStatus::Connecting => 10,
        RequestStatus::SslHandshake => 11,
        RequestStatus::SendingRequest => 12,
        RequestStatus::WaitingForResponse => 13,
        RequestStatus::ReadingResponse => 14,
        RequestStatus::Unknown(v) => v as int,
    }
}

impl RequestStatus {
    /// Decodes a native status value; values outside the known range are kept
    /// as `Unknown`.
    pub fn from_raw(value: i32) -> (r: RequestStatus)
        ensures
            status_index(r) == value,
            (r is Unknown) <==> (value < 0 || value > 14),
    {
        match value {
            0 => RequestStatus::Idle,
            1 => RequestStatus::WaitingForStalledSocketPool,
            2 => RequestStatus::WaitingForAvailableSocket,
            3 => RequestStatus::WaitingForDelegate,
            4 => RequestStatus::WaitingForCache,
            5 => RequestStatus::DownloadingPacFile,
            6 => RequestStatus::ResolvingProxyForUrl,
            7 => RequestStatus::ResolvingHostInPacFile,
            8 => RequestStatus::EstablishingProxyTunnel,
            9 => RequestStatus::ResolvingHost,
            10 => RequestStatus::Connecting,
            11 => RequestStatus::SslHandshake,
            12 => RequestStatus::SendingRequest,
            13 => RequestStatus::WaitingForResponse,
            14 => RequestStatus::ReadingResponse,
            other => RequestStatus::Unknown(other),
        }
    }
}

} // verus!
