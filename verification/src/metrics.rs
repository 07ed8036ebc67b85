use vstd::prelude::*;

use crate::model::{NetworkError, ResponseInfo};

verus! {

/// Why Cronet considers a request finished.
#[derive(Clone, Copy, Debug, PartialEq, Eq, Structural)]
pub enum FinishedReason {
    /// The request completed successfully.
    Succeeded,
    /// The request failed.
    Failed,
    /// The request was canceled.
    Canceled,
    /// A value introduced by a newer Cronet SDK.
    Unknown(i32),
}

/// The reason that a native finished-reason number stands for.
pub open spec fn finished_reason_of(value: i32) -> FinishedReason {
    if value == 0 {
        FinishedReason::Succeeded
    } else if value == 1 {
        FinishedReason::Failed
    } else if value == 2 {
        FinishedReason::Canceled
    } else {
        FinishedReason::Unknown(value)
    }
}

impl From<i32> for FinishedReason {
    fn from(value: i32) -> (r: Self) {
        match value {
            0 => FinishedReason::Succeeded,
            1 => FinishedReason::Failed,
            2 => FinishedReason::Canceled,
            other => FinishedReason::Unknown(other),
        }
    }
}

impl vstd::std_specs::convert::FromSpecImpl<i32> for FinishedReason {
    open spec fn obeys_from_spec() -> bool {
        true
    }

    open spec fn from_spec(value: i32) -> FinishedReason {
        finished_reason_of(value)
    }
}

/// Decodes a native finished-reason number.
pub fn finished_reason(value: i32) -> (r: FinishedReason)
    ensures
        r == finished_reason_of(value),
{
    FinishedReason::from(value)
}

/// Owned timing and byte-count snapshot from `Cronet_Metrics`.
#[derive(Clone, Debug)]
pub struct Metrics {
    /// Request start time in milliseconds since the Unix epoch.
    pub request_start: Option<i64>,
    /// DNS lookup start time.
    pub dns_start: Option<i64>,
    /// DNS lookup end time.
    pub dns_end: Option<i64>,
    /// Connection attempt start time.
    pub connect_start: Option<i64>,
    /// Connection attempt end time.
    pub connect_end: Option<i64>,
    /// TLS handshake start time.
    pub ssl_start: Option<i64>,
    /// TLS handshake end time.
    pub ssl_end: Option<i64>,
    /// Request body send start time.
    pub sending_start: Option<i64>,
    /// Request body send end time.
    pub sending_end: Option<i64>,
    /// Server push start time.
    pub push_start: Option<i64>,
    /// Server push end time.
    pub push_end: Option<i64>,
    /// First response byte time.
    pub response_start: Option<i64>,
    /// Request completion time.
    pub request_end: Option<i64>,
    /// Whether Cronet reused an existing socket.
    pub socket_reused: bool,
    /// Number of request bytes sent.
    pub sent_byte_count: i64,
    /// Number of response bytes received.
    pub received_byte_count: i64,
}

/// Owned snapshot supplied to a request-finished listener.
#[derive(Clone, Debug)]
pub struct RequestFinishedInfo {
    /// Final request outcome.
    pub reason: FinishedReason,
    /// Timing metrics, when Cronet collected them.
    pub metrics: Option<Metrics>,
    /// Number of opaque native annotations attached to the request.
    pub annotation_count: usize,
}

/// One completed Cronet request and its optional response/error snapshots.
#[derive(Clone, Debug)]
pub struct RequestFinished {
    /// Completion metadata. Cronet normally always supplies this value.
    pub info: Option<RequestFinishedInfo>,
    /// Last response information, if a response was received.
    pub response: Option<ResponseInfo>,
    /// Network error for failed requests.
    pub error: Option<NetworkError>,
}

} // verus!
