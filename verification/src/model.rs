use vstd::prelude::*;

verus! {

/// One HTTP header.
#[derive(Clone, Debug, PartialEq, Eq)]
pub struct Header {
    /// Header name.
    pub name: String,
    /// Header value.
    pub value: String,
}

/// A copy of response metadata supplied to a request callback.
#[derive(Clone, Debug, Default, PartialEq, Eq)]
pub struct ResponseInfo {
    /// Final URL.
    pub url: String,
    /// Redirect URL chain.
    pub url_chain: Vec<String>,
    /// HTTP status code.
    pub status_code: i32,
    /// HTTP reason phrase.
    pub status_text: String,
    /// Response headers in wire order.
    pub headers: Vec<Header>,
    /// Whether the response came from cache.
    pub was_cached: bool,
    /// Negotiated protocol, such as `h2` or `h3`.
    pub negotiated_protocol: String,
    /// Proxy server description, if any.
    pub proxy_server: String,
    /// Bytes received at the time this snapshot was created.
    pub received_byte_count: i64,
}

/// A copied network error reported by Cronet.
#[derive(Clone, Debug, PartialEq, Eq)]
pub struct NetworkError {
    /// Stable Cronet error category represented by its IDL numeric value.
    pub code: i32,
    /// Human-readable diagnostic.
    pub message: String,
    /// Chromium `net::Error` code.
    pub internal_error_code: i32,
    /// Whether retrying immediately may succeed.
    pub immediately_retryable: bool,
    /// Detailed QUIC error code, or zero when not applicable.
    pub quic_detailed_error_code: i32,
}

/// A header as a pair of character sequences.
pub open spec fn header_view(h: Header) -> (Seq<char>, Seq<char>) {
    (h.name@, h.value@)
}

/// Builds a header from a name and a value.
pub fn header(name: &str, value: &str) -> (h: Header)
    ensures
        h.name@ == name@,
        h.value@ == value@,
{
    Header { name: String::from_str(name), value: String::from_str(value) }
}

} // verus!
