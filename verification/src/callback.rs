use vstd::prelude::*;

use crate::model::{NetworkError, ResponseInfo};

verus! {

/// Borrowed access to the active native request inside a callback: the
/// address of the native request.
#[derive(Clone, Copy, Debug, PartialEq, Eq, Structural)]
pub struct RequestHandle {
    raw: usize,
}

impl RequestHandle {
    /// The address of the native request.
    pub closed spec fn address(self) -> usize {
        self.raw
    }

    /// A handle for the native request at address `raw`.
    pub fn from_raw(raw: usize) -> (r: RequestHandle)
        ensures
            r.address() == raw,
    {
        RequestHandle { raw }
    }

    /// Exposes the borrowed native request address.
    pub fn as_raw(self) -> (r: usize)
        ensures
            r == self.address(),
    {
        self.raw
    }
}

/// Callback interface implemented by Rust applications. Every event is
/// ignored unless the implementation handles it; `buffer` is the address of
/// the native read buffer.
pub trait UrlRequestHandler: Send + 'static {
    /// Called for an HTTP redirect.
    fn on_redirect(&mut self, request: RequestHandle, info: Option<ResponseInfo>, new_location: String) {
    }

    /// Called when response headers are available.
    fn on_response_started(&mut self, request: RequestHandle, info: ResponseInfo) {
    }

    /// Called after a supplied read buffer has been filled.
    fn on_read_completed(&mut self, request: RequestHandle, info: ResponseInfo, buffer: usize, bytes_read: u64) {
    }

    /// Called after successful completion.
    fn on_succeeded(&mut self, request: RequestHandle, info: ResponseInfo) {
    }

    /// Called after network or callback failure.
    fn on_failed(&mut self, request: RequestHandle, info: Option<ResponseInfo>, error: NetworkError) {
    }

    /// Called after cancellation completes.
    fn on_canceled(&mut self, request: RequestHandle, info: Option<ResponseInfo>) {
    }
}

} // verus!
