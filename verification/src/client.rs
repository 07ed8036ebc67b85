use vstd::prelude::*;

use crate::error::Error;
use crate::model::{Header, NetworkError, ResponseInfo};
use crate::params::RequestParams;
use crate::text::{concat_str, signed_decimal};

verus! {

/// Size of each native response-body read unless configured otherwise.
pub const DEFAULT_BODY_READ_SIZE: usize = 32768;

/// Configuration for one high-level HTTP request.
#[derive(Clone, Debug)]
pub struct RequestOptions {
    /// Absolute request URL.
    pub url: String,
    /// HTTP method.
    pub method: String,
    /// Request headers.
    pub headers: Vec<Header>,
    /// Whether this request bypasses Cronet's HTTP cache.
    pub disable_cache: bool,
    /// Size of each native response-body read.
    pub read_buffer_size: usize,
    /// Optional in-memory request body. The body is rewindable for redirects.
    pub body: Option<Vec<u8>>,
}

impl RequestOptions {
    /// Creates a GET request.
    pub fn get(url: String) -> (r: RequestOptions)
        ensures
            r.url == url,
            r.method@ == "GET"@,
            r.headers@.len() == 0,
            !r.disable_cache,
            r.read_buffer_size == DEFAULT_BODY_READ_SIZE,
            r.body is None,
    {
        RequestOptions {
            url,
            method: String::from_str("GET"),
            headers: Vec::new(),
            disable_cache: false,
            read_buffer_size: DEFAULT_BODY_READ_SIZE,
            body: None,
        }
    }

    /// Adds a request header.
    pub fn header(self, name: String, value: String) -> (r: RequestOptions)
        ensures
            r.headers@ == self.headers@.push(Header { name, value }),
            r == (RequestOptions { headers: r.headers, ..self }),
    {
        let mut options = self;
        options.headers.push(Header { name, value });
        options
    }

    /// Sets an in-memory request body.
    pub fn body(self, body: Vec<u8>) -> (r: RequestOptions)
        ensures
            r == (RequestOptions { body: Some(body), ..self }),
    {
        let mut options = self;
        options.body = Some(body);
        options
    }

    /// The native request parameters of this request: its method, cache
    /// setting and headers in order.
    pub fn params(&self) -> (p: RequestParams)
        ensures
            p.method matches Some(m) && m@ == self.method@,
            p.disable_cache == Some(self.disable_cache),
            p.priority is None,
            p.allow_direct_executor is None,
            p.headers@ == self.headers@,
    {
        let mut params = RequestParams::new();
        params.method(self.method.as_str()).disable_cache(self.disable_cache);
        let n = self.headers.len();
        let mut i: usize = 0;
        while i < n
            invariant
                n == self.headers@.len(),
                0 <= i <= n,
                params.method matches Some(m) && m@ == self.method@,
                params.disable_cache == Some(self.disable_cache),
                params.priority is None,
                params.allow_direct_executor is None,
                params.headers@ == self.headers@.subrange(0, i as int),
            decreases n - i,
        {
            let h = &self.headers[i];
            params.header(Header { name: h.name.clone(), value: h.value.clone() });
            proof {
                assert(params.headers@ =~= self.headers@.subrange(0, i + 1));
            }
            i = i + 1;
        }
        assert(self.headers@.subrange(0, n as int) =~= self.headers@);
        params
    }
}

/// Fully collected HTTP response.
#[derive(Clone, Debug)]
pub struct Response {
    /// Final response metadata.
    pub info: ResponseInfo,
    /// Response body bytes.
    pub body: Vec<u8>,
}

/// Failure from the high-level request API.
#[derive(Debug)]
pub enum RequestError {
    /// Native setup or request state failure.
    Api(Error),
    /// Network failure reported asynchronously.
    Network(NetworkError),
    /// Request was canceled.
    Canceled,
    /// Callback execution ended without a terminal event.
    CallbackDisconnected,
}

/// The diagnostic text of a request failure.
pub open spec fn request_error_text(e: RequestError) -> Seq<char> {
    match e {
        RequestError::Api(error) => "Cronet operation failed with result code "@ + signed_decimal(
            error.spec_code() as int,
        ),
        RequestError::Network(error) => "Cronet network error: "@ + error.message@,
        RequestError::Canceled => "Cronet request was canceled"@,
        RequestError::CallbackDisconnected => "Cronet callback channel disconnected"@,
    }
}

impl RequestError {
    /// Renders the diagnostic text of this failure.
    pub fn to_string(&self) -> (s: String)
        ensures
            s@ == request_error_text(*self),
    {
        match self {
            RequestError::Api(error) => error.to_string(),
            RequestError::Network(error) => concat_str("Cronet network error: ", error.message.as_str()),
            RequestError::Canceled => String::from_str("Cronet request was canceled"),
            RequestError::CallbackDisconnected => String::from_str("Cronet callback channel disconnected"),
        }
    }
}

impl From<Error> for RequestError {
    fn from(value: Error) -> (r: RequestError) {
        RequestError::Api(value)
    }
}

impl vstd::std_specs::convert::FromSpecImpl<Error> for RequestError {
    open spec fn obeys_from_spec() -> bool {
        true
    }

    open spec fn from_spec(v: Error) -> RequestError {
        RequestError::Api(v)
    }
}

/// The state of a request whose response body is collected in memory: the
/// latest response metadata, the body received so far, and whether the
/// outcome was already handed out. Exactly one outcome is handed out: the
/// one of the first terminal event.
pub struct CollectingHandler {
    /// Whether an outcome was already handed out.
    pub delivered: bool,
    /// The latest response metadata.
    pub info: Option<ResponseInfo>,
    /// The body bytes received so far.
    pub body: Vec<u8>,
    /// Size of each native read buffer (at least one byte).
    pub read_buffer_size: usize,
}

/// The number of bytes of a read that count: what the native side reported,
/// but never more than the buffer holds.
pub open spec fn read_count(bytes_read: u64, buffer_len: nat) -> nat {
    if bytes_read >= buffer_len {
        buffer_len
    } else {
        bytes_read as nat
    }
}

impl CollectingHandler {
    /// A collector whose reads use `read_buffer_size` bytes (at least one).
    pub fn new(read_buffer_size: usize) -> (r: CollectingHandler)
        ensures
            !r.delivered,
            r.info is None,
            r.body@.len() == 0,
            r.read_buffer_size == if read_buffer_size == 0 { 1 } else { read_buffer_size },
    {
        CollectingHandler {
            delivered: false,
            info: None,
            body: Vec::new(),
            read_buffer_size: if read_buffer_size == 0 { 1 } else { read_buffer_size },
        }
    }

    /// Hands out `outcome` unless an outcome was handed out before; after
    /// this call nothing more is handed out.
    pub fn finish(&mut self, outcome: Result<Response, RequestError>) -> (r: Option<Result<Response, RequestError>>)
        ensures
            r == if old(self).delivered { None } else { Some(outcome) },
            final(self).delivered,
            final(self).info == old(self).info,
            final(self).body == old(self).body,
            final(self).read_buffer_size == old(self).read_buffer_size,
    {
        if self.delivered {
            None
        } else {
            self.delivered = true;
            Some(outcome)
        }
    }

    /// Records response headers; the caller then starts the first read.
    pub fn on_response_started(&mut self, info: ResponseInfo)
        ensures
            *final(self) == (CollectingHandler { info: Some(info), ..*old(self) }),
    {
        self.info = Some(info);
    }

    /// Records a completed read: the latest metadata and the bytes that the
    /// read delivered, `buffer` being the read buffer's contents. The caller
    /// then starts the next read.
    pub fn on_read_completed(&mut self, info: ResponseInfo, buffer: &[u8], bytes_read: u64)
        ensures
            final(self).body@ == old(self).body@ + buffer@.subrange(
                0,
                read_count(bytes_read, buffer@.len()) as int,
            ),
            final(self).info == Some(info),
            final(self).delivered == old(self).delivered,
            final(self).read_buffer_size == old(self).read_buffer_size,
    {
        self.info = Some(info);
        let count: usize = if (buffer.len() as u64) <= bytes_read {
            buffer.len()
        } else {
            bytes_read as usize
        };
        let ghost before = self.body@;
        let mut i: usize = 0;
        while i < count
            invariant
                count <= buffer@.len(),
                count == read_count(bytes_read, buffer@.len()),
                0 <= i <= count,
                self.body@ == before + buffer@.subrange(0, i as int),
                self.info == Some(info),
                self.delivered == old(self).delivered,
                self.read_buffer_size == old(self).read_buffer_size,
            decreases count - i,
        {
            self.body.push(buffer[i]);
            proof {
                assert(self.body@ =~= before + buffer@.subrange(0, i + 1));
            }
            i = i + 1;
        }
    }

    /// A read or redirect that the native side refused: the refusal is the
    /// outcome (when none was handed out yet); the caller then cancels.
    pub fn on_refused(&mut self, error: Error) -> (r: Option<Result<Response, RequestError>>)
        ensures
            r == if old(self).delivered { None } else { Some(Err::<Response, RequestError>(RequestError::Api(error))) },
            final(self).delivered,
            final(self).body == old(self).body,
            final(self).info == old(self).info,
    {
        self.finish(Err(RequestError::Api(error)))
    }

    /// Successful completion: the response with `info` and the whole body.
    pub fn on_succeeded(&mut self, info: ResponseInfo) -> (r: Option<Result<Response, RequestError>>)
        ensures
            old(self).delivered ==> r is None,
            !old(self).delivered ==> (r matches Some(Ok(response)) && response.info == info
                && response.body@ == old(self).body@),
            final(self).delivered,
            final(self).body@.len() == 0,
    {
        let mut body: Vec<u8> = Vec::new();
        std::mem::swap(&mut body, &mut self.body);
        self.finish(Ok(Response { info, body }))
    }

    /// Network failure: the error is the outcome.
    pub fn on_failed(&mut self, error: NetworkError) -> (r: Option<Result<Response, RequestError>>)
        ensures
            r == if old(self).delivered { None } else { Some(Err::<Response, RequestError>(RequestError::Network(error))) },
            final(self).delivered,
            final(self).body == old(self).body,
    {
        self.finish(Err(RequestError::Network(error)))
    }

    /// Cancellation: the outcome is `Canceled`.
    pub fn on_canceled(&mut self) -> (r: Option<Result<Response, RequestError>>)
        ensures
            r == if old(self).delivered { None } else { Some(Err::<Response, RequestError>(RequestError::Canceled)) },
            final(self).delivered,
            final(self).body == old(self).body,
    {
        self.finish(Err(RequestError::Canceled))
    }
}

} // verus!
