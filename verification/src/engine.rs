use vstd::prelude::*;

use crate::net_error::{io_kind_of, net_error_code_for, NetError};

verus! {

/// Result returned by a custom UDP dialer.
#[derive(Clone, Debug)]
pub struct UdpDialResult {
    /// Socket descriptor, or a negative Chromium net error.
    pub fd: i32,
    /// Local IP literal reported to Cronet.
    pub local_address: String,
    /// Local UDP port.
    pub local_port: u16,
}

/// The dial result reporting a failed I/O operation: the Chromium error
/// for the failure, with no local endpoint.
pub fn udp_error(error: &std::io::Error) -> (r: UdpDialResult)
    ensures
        r.fd == net_error_code_for(io_kind_of(*error)),
        r.local_address@.len() == 0,
        r.local_port == 0,
{
    UdpDialResult { fd: NetError::from_io(error).code(), local_address: String::new(), local_port: 0 }
}

/// `s` without the square brackets at either end (as many as there are).
pub open spec fn trim_brackets(s: Seq<char>) -> Seq<char>
    decreases s.len(),
{
    if s.len() > 0 && (s[0] == '[' || s[0] == ']') {
        trim_brackets(s.drop_first())
    } else if s.len() > 0 && (s.last() == '[' || s.last() == ']') {
        trim_brackets(s.drop_last())
    } else {
        s
    }
}

/// Whether a dial target is the loopback DNS server that intercepted DNS
/// traffic is sent to: port 53 on `127.0.0.1`, `::1` or `localhost`,
/// brackets around the host ignored.
pub open spec fn is_dns_endpoint_spec(address: Seq<char>, port: u16) -> bool {
    let host = trim_brackets(address);
    port == 53 && (host == "127.0.0.1"@ || host == "::1"@ || host == "localhost"@)
}

fn is_bracket(c: char) -> (r: bool)
    ensures
        r == (c == '[' || c == ']'),
{
    c == '[' || c == ']'
}

proof fn lemma_trim_brackets_range(s: Seq<char>, lo: int, hi: int)
    requires
        0 <= lo <= hi <= s.len(),
        forall|i: int| 0 <= i < lo ==> (s[i] == '[' || s[i] == ']'),
        forall|i: int| hi <= i < s.len() ==> (s[i] == '[' || s[i] == ']'),
        lo < hi ==> !(s[lo] == '[' || s[lo] == ']'),
        lo < hi ==> !(s[hi - 1] == '[' || s[hi - 1] == ']'),
    ensures
        trim_brackets(s) == s.subrange(lo, hi),
    decreases s.len(),
{
    if s.len() > 0 && (s[0] == '[' || s[0] == ']') {
        if lo > 0 {
            lemma_trim_brackets_range(s.drop_first(), lo - 1, hi - 1);
            assert(s.drop_first().subrange(lo - 1, hi - 1) =~= s.subrange(lo, hi));
        } else {
            assert(hi == 0);
            lemma_trim_brackets_range(s.drop_first(), 0, 0);
            assert(s.drop_first().subrange(0, 0) =~= s.subrange(lo, hi));
        }
    } else if s.len() > 0 && (s.last() == '[' || s.last() == ']') {
        assert(hi < s.len());
        lemma_trim_brackets_range(s.drop_last(), lo, hi);
        assert(s.drop_last().subrange(lo, hi) =~= s.subrange(lo, hi));
    } else {
        if s.len() > 0 {
            assert(lo == 0);
            assert(hi == s.len());
        } else {
            assert(lo == 0 && hi == 0);
        }
        assert(s.subrange(lo, hi) =~= s);
    }
}

/// The characters of `address` without the square brackets at either end.
pub fn trim_brackets_chars(address: &str) -> (r: Vec<char>)
    ensures
        r@ == trim_brackets(address@),
{
    let n = address.unicode_len();
    let mut lo: usize = 0;
    while lo < n && is_bracket(address.get_char(lo))
        invariant
            n == address@.len(),
            0 <= lo <= n,
            forall|i: int| 0 <= i < lo ==> (address@[i] == '[' || address@[i] == ']'),
        decreases n - lo,
    {
        lo = lo + 1;
    }
    let mut hi: usize = n;
    while hi > lo && is_bracket(address.get_char(hi - 1))
        invariant
            n == address@.len(),
            0 <= lo <= hi <= n,
            forall|i: int| hi <= i < n ==> (address@[i] == '[' || address@[i] == ']'),
        decreases hi - lo,
    {
        hi = hi - 1;
    }
    proof {
        lemma_trim_brackets_range(address@, lo as int, hi as int);
    }
    let mut host: Vec<char> = Vec::new();
    let mut i: usize = lo;
    while i < hi
        invariant
            n == address@.len(),
            lo <= i <= hi <= n,
            host@ == address@.subrange(lo as int, i as int),
        decreases hi - i,
    {
        host.push(address.get_char(i));
        proof {
            assert(address@.subrange(lo as int, i as int).push(address@[i as int]) =~= address@.subrange(lo as int, i + 1));
        }
        i = i + 1;
    }
    host
}

/// Whether a dial target is the loopback DNS server.
pub fn is_dns_endpoint(address: &str, port: u16) -> (r: bool)
    ensures
        r == is_dns_endpoint_spec(address@, port),
{
    let n = address.unicode_len();
    let mut lo: usize = 0;
    while lo < n && is_bracket(address.get_char(lo))
        invariant
            n == address@.len(),
            0 <= lo <= n,
            forall|i: int| 0 <= i < lo ==> (address@[i] == '[' || address@[i] == ']'),
        decreases n - lo,
    {
        lo = lo + 1;
    }
    let mut hi: usize = n;
    while hi > lo && is_bracket(address.get_char(hi - 1))
        invariant
            n == address@.len(),
            0 <= lo <= hi <= n,
            forall|i: int| hi <= i < n ==> (address@[i] == '[' || address@[i] == ']'),
        decreases hi - lo,
    {
        hi = hi - 1;
    }
    proof {
        lemma_trim_brackets_range(address@, lo as int, hi as int);
    }
    if port != 53 {
        return false;
    }
    let mut host: Vec<char> = Vec::new();
    let mut i: usize = lo;
    while i < hi
        invariant
            n == address@.len(),
            lo <= i <= hi <= n,
            host@ == address@.subrange(lo as int, i as int),
        decreases hi - i,
    {
        host.push(address.get_char(i));
        proof {
            assert(host@ =~= address@.subrange(lo as int, i + 1));
        }
        i = i + 1;
    }
    let text = crate::text::string_from_chars(host);
    let a = crate::text::str_eq(text.as_str(), "127.0.0.1");
    let b = crate::text::str_eq(text.as_str(), "::1");
    let c = crate::text::str_eq(text.as_str(), "localhost");
    a || b || c
}

/// Where a hooked dial goes once a DNS resolver is installed.
#[derive(Clone, Copy, Debug, PartialEq, Eq, Structural)]
pub enum DialRoute {
    /// To the in-process DNS proxy.
    DnsProxy,
    /// To the dialer installed before the resolver.
    Previous,
    /// To the system socket stack.
    System,
}

/// Routes a dial: DNS traffic to the DNS proxy, anything else to the
/// previously installed dialer, or to the system when there is none.
pub fn dial_route(address: &str, port: u16, has_previous: bool) -> (r: DialRoute)
    ensures
        r == if is_dns_endpoint_spec(address@, port) {
            DialRoute::DnsProxy
        } else if has_previous {
            DialRoute::Previous
        } else {
            DialRoute::System
        },
{
    if is_dns_endpoint(address, port) {
        DialRoute::DnsProxy
    } else if has_previous {
        DialRoute::Previous
    } else {
        DialRoute::System
    }
}

/// What a datagram bridge direction does after one receive attempt.
#[derive(Clone, Copy, Debug, PartialEq, Eq, Structural)]
pub enum DatagramStep {
    /// Pass on the first `n` bytes of the packet buffer as one datagram.
    Forward(usize),
    /// Nothing arrived before the poll timeout; try again.
    Retry,
    /// The direction ends.
    Stop,
}

/// How one receive attempt of a datagram bridge direction into a buffer of
/// `capacity` bytes is handled: a packet of `n` bytes (`Ok(Some(n))`) is
/// passed on whole, an empty packet or one larger than the buffer ends the
/// direction, a poll timeout (`Ok(None)`) retries and any other failure
/// (`Err`) ends the direction.
pub fn datagram_step(received: Result<Option<usize>, ()>, capacity: usize) -> (r: DatagramStep)
    ensures
        r == match received {
            Ok(Some(n)) => if n == 0 || n > capacity {
                DatagramStep::Stop
            } else {
                DatagramStep::Forward(n)
            },
            Ok(None) => DatagramStep::Retry,
            Err(()) => DatagramStep::Stop,
        },
{
    match received {
        Ok(Some(n)) => {
            if n == 0 || n > capacity {
                DatagramStep::Stop
            } else {
                DatagramStep::Forward(n)
            }
        },
        Ok(None) => DatagramStep::Retry,
        Err(()) => DatagramStep::Stop,
    }
}

/// Whether a bridge's close callback runs now: only the first of the two
/// directions to finish runs it. Returns whether to run it and records that
/// the bridge is closed.
pub fn claim_close(closed: &mut bool) -> (r: bool)
    ensures
        r == !*old(closed),
        *final(closed),
{
    let first = !*closed;
    *closed = true;
    first
}

/// The close callback of a split transport that has none.
#[derive(Clone, Copy, Debug)]
pub struct NoClose;

/// Independently owned read and write halves of a custom byte stream.
///
/// The halves are driven concurrently by Cronet bridge threads. Call
/// [`Self::on_close`] for transports that need an explicit cancellation
/// signal to unblock a pending read when the other direction closes.
pub struct SplitStream<R, W, C> {
    reader: R,
    writer: W,
    close: Option<C>,
}

impl<R, W, C> SplitStream<R, W, C> {
    /// The read half.
    pub closed spec fn reader(self) -> R {
        self.reader
    }

    /// The write half.
    pub closed spec fn writer(self) -> W {
        self.writer
    }

    /// The close callback, when one is installed.
    pub closed spec fn close(self) -> Option<C> {
        self.close
    }
}

impl<R, W> SplitStream<R, W, NoClose> {
    /// Creates a split stream from independently owned read and write halves.
    pub fn new(reader: R, writer: W) -> (r: SplitStream<R, W, NoClose>)
        ensures
            r.reader() == reader,
            r.writer() == writer,
            r.close() is None,
    {
        SplitStream { reader, writer, close: None }
    }
}

impl<R, W, C> SplitStream<R, W, C> {
    /// Installs a callback invoked once when either bridge direction ends.
    pub fn on_close<D>(self, close: D) -> (r: SplitStream<R, W, D>)
        ensures
            r.reader() == self.reader(),
            r.writer() == self.writer(),
            r.close() == Some(close),
    {
        SplitStream { reader: self.reader, writer: self.writer, close: Some(close) }
    }

    /// The read half, the write half and the close callback.
    pub fn into_parts(self) -> (r: (R, W, Option<C>))
        ensures
            r == (self.reader(), self.writer(), self.close()),
    {
        (self.reader, self.writer, self.close)
    }
}

/// Callback-backed packet transport: each receive or send callback handles
/// exactly one complete datagram. The reported local endpoint is passed to
/// Cronet for QUIC socket bookkeeping.
pub struct SplitDatagram<R, S, C> {
    receive: R,
    send: S,
    local_address: String,
    local_port: u16,
    close: Option<C>,
}

impl<R, S, C> SplitDatagram<R, S, C> {
    /// The receive callback.
    pub closed spec fn receiver(self) -> R {
        self.receive
    }

    /// The send callback.
    pub closed spec fn sender(self) -> S {
        self.send
    }

    /// The local IP literal reported to Cronet.
    pub closed spec fn address(self) -> Seq<char> {
        self.local_address@
    }

    /// The local port reported to Cronet.
    pub closed spec fn port(self) -> u16 {
        self.local_port
    }

    /// The close callback, when one is installed.
    pub closed spec fn close(self) -> Option<C> {
        self.close
    }
}

impl<R, S> SplitDatagram<R, S, NoClose> {
    /// Creates a datagram transport with its Cronet-visible local endpoint.
    pub fn new(receive: R, send: S, local_address: String, local_port: u16) -> (r: SplitDatagram<R, S, NoClose>)
        ensures
            r.receiver() == receive,
            r.sender() == send,
            r.address() == local_address@,
            r.port() == local_port,
            r.close() is None,
    {
        SplitDatagram { receive, send, local_address, local_port, close: None }
    }
}

impl<R, S, C> SplitDatagram<R, S, C> {
    /// Installs a callback invoked once when either bridge direction ends.
    pub fn on_close<D>(self, close: D) -> (r: SplitDatagram<R, S, D>)
        ensures
            r.receiver() == self.receiver(),
            r.sender() == self.sender(),
            r.address() == self.address(),
            r.port() == self.port(),
            r.close() == Some(close),
    {
        SplitDatagram {
            receive: self.receive,
            send: self.send,
            local_address: self.local_address,
            local_port: self.local_port,
            close: Some(close),
        }
    }

    /// Returns the local IP literal reported to Cronet.
    pub fn local_address(&self) -> (r: &str)
        ensures
            r@ == self.address(),
    {
        self.local_address.as_str()
    }

    /// Returns the local port reported to Cronet.
    pub fn local_port(&self) -> (r: u16)
        ensures
            r == self.port(),
    {
        self.local_port
    }

    /// The receive callback, the send callback and the close callback.
    pub fn into_parts(self) -> (r: (R, S, Option<C>))
        ensures
            r == (self.receiver(), self.sender(), self.close()),
    {
        (self.receive, self.send, self.close)
    }
}


/// Only dials to port 53 are ever handed to the DNS proxy, and on port 53
/// exactly the loopback names `127.0.0.1`, `::1` and `localhost` (in
/// brackets or not) are.
pub proof fn lemma_dns_endpoint_only_port_53(address: Seq<char>, port: u16)
    ensures
        is_dns_endpoint_spec(address, port) ==> port == 53,
        port != 53 ==> !is_dns_endpoint_spec(address, port),
        port == 53 ==> (is_dns_endpoint_spec(address, port) <==> {
            let host = trim_brackets(address);
            host == "127.0.0.1"@ || host == "::1"@ || host == "localhost"@
        }),
{
}

} // verus!
