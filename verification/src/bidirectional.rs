use vstd::prelude::*;

use crate::model::Header;

verus! {

/// Borrowed handle passed to bidirectional-stream callbacks: the address
/// of the native stream.
#[derive(Clone, Copy, Debug, PartialEq, Eq, Structural)]
pub struct BidirectionalStreamHandle {
    raw: usize,
}

impl BidirectionalStreamHandle {
    /// The address of the native stream.
    pub closed spec fn address(self) -> usize {
        self.raw
    }

    /// A handle for the native stream at address `raw`.
    pub fn from_raw(raw: usize) -> (r: BidirectionalStreamHandle)
        ensures
            r.address() == raw,
    {
        BidirectionalStreamHandle { raw }
    }

    /// Returns the native stream address.
    pub fn as_raw(self) -> (r: usize)
        ensures
            r == self.address(),
    {
        self.raw
    }
}

/// Events produced by the SagerNet Cronet bidirectional-stream API.
///
/// These methods run synchronously on Cronet's network thread and must not
/// block, perform disk I/O, or call engine shutdown.
pub trait BidirectionalStreamHandler: Send + 'static {
    /// Stream can begin reading and writing.
    fn on_stream_ready(&mut self, stream: BidirectionalStreamHandle);

    /// Initial response headers arrived.
    fn on_response_headers(&mut self, stream: BidirectionalStreamHandle, headers: Vec<Header>, negotiated_protocol: String);

    /// One response read completed.
    fn on_read_completed(&mut self, stream: BidirectionalStreamHandle, bytes_read: i32);

    /// One request write completed.
    fn on_write_completed(&mut self, stream: BidirectionalStreamHandle);

    /// Response trailers arrived.
    fn on_response_trailers(&mut self, stream: BidirectionalStreamHandle, trailers: Vec<Header>) {
    }

    /// Both directions completed successfully.
    fn on_succeeded(&mut self, stream: BidirectionalStreamHandle);

    /// Stream failed with a Chromium net error.
    fn on_failed(&mut self, stream: BidirectionalStreamHandle, net_error: i32);

    /// Cancellation completed.
    fn on_canceled(&mut self, stream: BidirectionalStreamHandle);
}

} // verus!
