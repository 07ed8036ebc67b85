use vstd::prelude::*;

use crate::bidirectional_conn::{BidirectionalConnection, StreamError};
use crate::model::{header, header_view, Header};
use crate::text::{concat_str, str_eq, string_from_chars};

verus! {

/// Number of records at the start of each direction that carry padding.
pub const PADDING_CHUNKS: usize = 8;

/// Largest payload that one padded record can carry.
pub const MAX_CHUNK: usize = 65535;

/// The record that carries `chunk` followed by the bytes `padding`: a
/// big-endian payload length, the padding length, the payload and the
/// padding.
pub open spec fn padded_record(chunk: Seq<u8>, padding: Seq<u8>) -> Seq<u8> {
    seq![(chunk.len() / 256) as u8, (chunk.len() % 256) as u8, padding.len() as u8] + chunk + padding
}

/// The record that carries `chunk` followed by `padding` zero bytes, as
/// this writer sends it.
pub open spec fn padded_frame(chunk: Seq<u8>, padding: nat) -> Seq<u8> {
    padded_record(chunk, Seq::new(padding, |i: int| 0u8))
}

/// The bytes that a peer which has already sent `sent` records puts on the
/// wire for `chunks`, padding the i-th one with the bytes `paddings[i]`,
/// whatever they hold, while it is among the first eight records.
pub open spec fn writer_wire(sent: nat, chunks: Seq<Seq<u8>>, paddings: Seq<Seq<u8>>) -> Seq<u8>
    decreases chunks.len(),
{
    if chunks.len() == 0 {
        Seq::empty()
    } else {
        let first = if sent < PADDING_CHUNKS {
            padded_record(chunks[0], paddings[0])
        } else {
            chunks[0]
        };
        first + writer_wire(sent + 1, chunks.drop_first(), paddings.drop_first())
    }
}

/// All chunks one after the other.
pub open spec fn flatten(chunks: Seq<Seq<u8>>) -> Seq<u8>
    decreases chunks.len(),
{
    if chunks.len() == 0 {
        Seq::empty()
    } else {
        chunks[0] + flatten(chunks.drop_first())
    }
}

/// Padding-protocol state of one tunnel: how many padded records each
/// direction has passed, and where the reader stands inside the current
/// record.
#[derive(Clone, Copy, Debug, PartialEq, Eq, Structural)]
pub struct NaivePadding {
    /// Padded records whose header the reader has consumed.
    pub read_padding: usize,
    /// Padded records the writer has sent.
    pub write_padding: usize,
    /// Payload bytes left in the record being read.
    pub read_remaining: usize,
    /// Padding bytes left in the record being read.
    pub padding_remaining: usize,
    /// Header bytes of the next record already read (at most two).
    pub header_len: usize,
    /// First header byte, valid when `header_len >= 1`.
    pub header0: u8,
    /// Second header byte, valid when `header_len == 2`.
    pub header1: u8,
}

/// The reader state of a fresh tunnel that has passed `k` records.
pub open spec fn idle_reader(k: nat, write_padding: usize) -> NaivePadding {
    NaivePadding {
        read_padding: if k < PADDING_CHUNKS { k as usize } else { PADDING_CHUNKS },
        write_padding,
        read_remaining: 0,
        padding_remaining: 0,
        header_len: 0,
        header0: 0,
        header1: 0,
    }
}

/// What the reader does with one incoming byte: the next state and, when
/// the byte is payload, the byte itself.
pub open spec fn read_step(s: NaivePadding, b: u8) -> (NaivePadding, Option<u8>) {
    if s.read_remaining > 0 {
        (NaivePadding { read_remaining: (s.read_remaining - 1) as usize, ..s }, Some(b))
    } else if s.padding_remaining > 0 {
        (NaivePadding { padding_remaining: (s.padding_remaining - 1) as usize, ..s }, None)
    } else if s.read_padding >= PADDING_CHUNKS {
        (s, Some(b))
    } else if s.header_len == 0 {
        (NaivePadding { header_len: 1, header0: b, ..s }, None)
    } else if s.header_len == 1 {
        (NaivePadding { header_len: 2, header1: b, ..s }, None)
    } else {
        (
            NaivePadding {
                read_padding: (s.read_padding + 1) as usize,
                read_remaining: (s.header0 as nat * 256 + s.header1 as nat) as usize,
                padding_remaining: b as usize,
                header_len: 0,
                header0: 0,
                header1: 0,
                ..s
            },
            None,
        )
    }
}

/// The bytes of an optional byte.
pub open spec fn opt_bytes(o: Option<u8>) -> Seq<u8> {
    match o {
        Some(b) => seq![b],
        None => Seq::empty(),
    }
}

/// Reads `input` from state `s`: the final state and the payload bytes.
pub open spec fn decode(s: NaivePadding, input: Seq<u8>) -> (NaivePadding, Seq<u8>)
    decreases input.len(),
{
    if input.len() == 0 {
        (s, Seq::empty())
    } else {
        let (s1, o) = read_step(s, input[0]);
        let (s2, rest) = decode(s1, input.drop_first());
        (s2, opt_bytes(o) + rest)
    }
}

impl NaivePadding {
    /// The state of a tunnel on which nothing has been read or written.
    pub open spec fn spec_new() -> NaivePadding {
        idle_reader(0, 0)
    }

    /// Well-formed protocol state.
    pub open spec fn wf(self) -> bool {
        &&& self.read_padding <= PADDING_CHUNKS
        &&& self.write_padding <= PADDING_CHUNKS
        &&& self.read_remaining <= MAX_CHUNK
        &&& self.padding_remaining <= 255
        &&& self.header_len <= 2
        &&& self.header_len > 0 ==> self.read_padding < PADDING_CHUNKS && self.read_remaining == 0
            && self.padding_remaining == 0
    }

    /// Creates the protocol state of a new tunnel.
    pub fn new() -> (r: NaivePadding)
        ensures
            r == Self::spec_new(),
            r.wf(),
    {
        NaivePadding {
            read_padding: 0,
            write_padding: 0,
            read_remaining: 0,
            padding_remaining: 0,
            header_len: 0,
            header0: 0,
            header1: 0,
        }
    }

    /// Consumes bytes read from the stream and returns the payload they carry;
    /// record headers and padding are dropped.
    pub fn decode(&mut self, input: &[u8]) -> (out: Vec<u8>)
        requires
            old(self).wf(),
        ensures
            final(self).wf(),
            (*final(self), out@) == decode(*old(self), input@),
            final(self).write_padding == old(self).write_padding,
    {
        let ghost s0 = *self;
        let mut out: Vec<u8> = Vec::new();
        let n = input.len();
        let mut i: usize = 0;
        proof {
            assert(input@.take(0) =~= Seq::<u8>::empty());
        }
        while i < n
            invariant
                n == input@.len(),
                0 <= i <= n,
                self.wf(),
                self.write_padding == s0.write_padding,
                (*self, out@) == decode(s0, input@.take(i as int)),
            decreases n - i,
        {
            let b = input[i];
            let ghost before = *self;
            let ghost before_out = out@;
            let emitted = self.step(b);
            match emitted {
                Some(x) => {
                    out.push(x);
                },
                None => {},
            }
            proof {
                lemma_decode_single(before, b);
                lemma_decode_append(s0, input@.take(i as int), seq![b]);
                assert(input@.take(i as int) + seq![b] =~= input@.take(i + 1));
            }
            i = i + 1;
        }
        proof {
            assert(input@.take(n as int) =~= input@);
        }
        out
    }

    /// Applies one incoming byte.
    fn step(&mut self, b: u8) -> (o: Option<u8>)
        requires
            old(self).wf(),
        ensures
            final(self).wf(),
            (*final(self), o) == read_step(*old(self), b),
    {
        if self.read_remaining > 0 {
            self.read_remaining = self.read_remaining - 1;
            Some(b)
        } else if self.padding_remaining > 0 {
            self.padding_remaining = self.padding_remaining - 1;
            None
        } else if self.read_padding >= PADDING_CHUNKS {
            Some(b)
        } else if self.header_len == 0 {
            self.header_len = 1;
            self.header0 = b;
            None
        } else if self.header_len == 1 {
            self.header_len = 2;
            self.header1 = b;
            None
        } else {
            let payload = (self.header0 as usize) * 256 + (self.header1 as usize);
            self.read_padding = self.read_padding + 1;
            self.read_remaining = payload;
            self.padding_remaining = b as usize;
            self.header_len = 0;
            self.header0 = 0;
            self.header1 = 0;
            None
        }
    }
}

/// Reading one byte is one step.
pub proof fn lemma_decode_single(s: NaivePadding, b: u8)
    ensures
        decode(s, seq![b]) == (read_step(s, b).0, opt_bytes(read_step(s, b).1)),
{
    let input = seq![b];
    assert(input.drop_first() =~= Seq::<u8>::empty());
    let s1 = read_step(s, b).0;
    assert(decode(s1, Seq::<u8>::empty()) == (s1, Seq::<u8>::empty()));
    assert(opt_bytes(read_step(s, b).1) + Seq::<u8>::empty() =~= opt_bytes(read_step(s, b).1));
}

/// Reading two pieces one after the other is reading their concatenation.
pub proof fn lemma_decode_append(s: NaivePadding, a: Seq<u8>, b: Seq<u8>)
    ensures
        decode(s, a + b) == (decode(decode(s, a).0, b).0, decode(s, a).1 + decode(
            decode(s, a).0,
            b,
        ).1),
    decreases a.len(),
{
    if a.len() == 0 {
        assert(a + b =~= b);
        assert(Seq::<u8>::empty() + decode(s, b).1 =~= decode(s, b).1);
    } else {
        let (s1, o) = read_step(s, a[0]);
        assert((a + b)[0] == a[0]);
        assert((a + b).drop_first() =~= a.drop_first() + b);
        lemma_decode_append(s1, a.drop_first(), b);
        let (t, out_a) = decode(s1, a.drop_first());
        assert(opt_bytes(o) + (out_a + decode(t, b).1) =~= (opt_bytes(o) + out_a) + decode(
            t,
            b,
        ).1);
    }
}


/// Payload bytes pass through while the current record has room for them.
proof fn lemma_decode_payload(s: NaivePadding, c: Seq<u8>)
    requires
        s.read_remaining >= c.len(),
    ensures
        decode(s, c) == (NaivePadding { read_remaining: (s.read_remaining - c.len()) as usize, ..s }, c),
    decreases c.len(),
{
    if c.len() == 0 {
        assert(NaivePadding { read_remaining: (s.read_remaining - c.len()) as usize, ..s } == s);
        assert(c =~= Seq::<u8>::empty());
    } else {
        let s1 = read_step(s, c[0]).0;
        lemma_decode_payload(s1, c.drop_first());
        assert(seq![c[0]] + c.drop_first() =~= c);
    }
}

/// Padding bytes are dropped while the current record has room for them.
proof fn lemma_decode_padding(s: NaivePadding, z: Seq<u8>)
    requires
        s.read_remaining == 0,
        s.padding_remaining >= z.len(),
    ensures
        decode(s, z) == (NaivePadding { padding_remaining: (s.padding_remaining - z.len()) as usize, ..s }, Seq::<u8>::empty()),
    decreases z.len(),
{
    if z.len() == 0 {
        assert(NaivePadding { padding_remaining: (s.padding_remaining - z.len()) as usize, ..s } == s);
    } else {
        let s1 = read_step(s, z[0]).0;
        lemma_decode_padding(s1, z.drop_first());
        assert(Seq::<u8>::empty() + Seq::<u8>::empty() =~= Seq::<u8>::empty());
    }
}

/// After the padded records every byte is payload.
proof fn lemma_decode_passthrough(s: NaivePadding, x: Seq<u8>)
    requires
        s.read_remaining == 0,
        s.padding_remaining == 0,
        s.read_padding >= PADDING_CHUNKS,
    ensures
        decode(s, x) == (s, x),
    decreases x.len(),
{
    if x.len() > 0 {
        lemma_decode_passthrough(s, x.drop_first());
        assert(seq![x[0]] + x.drop_first() =~= x);
    }
}

/// One padded record yields its payload and leaves the reader idle again,
/// whatever its padding bytes hold.
proof fn lemma_decode_frame(k: nat, w: usize, c: Seq<u8>, z: Seq<u8>)
    requires
        k < PADDING_CHUNKS,
        c.len() <= MAX_CHUNK,
        z.len() <= 255,
    ensures
        decode(idle_reader(k, w), padded_record(c, z)) == (idle_reader(k + 1, w), c),
{
    let s = idle_reader(k, w);
    let len = c.len();
    let p = z.len();
    let h = seq![(len / 256) as u8, (len % 256) as u8, p as u8];
    assert(padded_record(c, z) == h + c + z);
    let s1 = read_step(s, h[0]).0;
    let s2 = read_step(s1, h[1]).0;
    let s3 = read_step(s2, h[2]).0;
    assert(((len / 256) as u8) as nat * 256 + ((len % 256) as u8) as nat == len);
    assert(s3.read_remaining == len);
    assert(s3.padding_remaining == p);
    lemma_decode_single(s, h[0]);
    lemma_decode_single(s1, h[1]);
    lemma_decode_single(s2, h[2]);
    lemma_decode_append(s, seq![h[0]], seq![h[1]]);
    assert(seq![h[0]] + seq![h[1]] =~= h.take(2));
    lemma_decode_append(s, h.take(2), seq![h[2]]);
    assert(h.take(2) + seq![h[2]] =~= h);
    assert(decode(s, h) == (s3, Seq::<u8>::empty()));
    lemma_decode_payload(s3, c);
    let s4 = NaivePadding { read_remaining: 0, ..s3 };
    lemma_decode_padding(s4, z);
    let s5 = NaivePadding { padding_remaining: 0, ..s4 };
    assert(s5 == idle_reader(k + 1, w));
    lemma_decode_append(s, h, c);
    lemma_decode_append(s, h + c, z);
    assert(Seq::<u8>::empty() + c + Seq::<u8>::empty() =~= c);
}

/// Reading what a writer sent from the matching position of the stream.
proof fn lemma_roundtrip_from(k: nat, w: usize, chunks: Seq<Seq<u8>>, paddings: Seq<Seq<u8>>)
    requires
        chunks.len() == paddings.len(),
        forall|i: int| 0 <= i < chunks.len() ==> #[trigger] chunks[i].len() <= MAX_CHUNK,
        forall|i: int| 0 <= i < paddings.len() ==> #[trigger] paddings[i].len() <= 255,
    ensures
        decode(idle_reader(k, w), writer_wire(k, chunks, paddings)) == (
            idle_reader(k + chunks.len(), w),
            flatten(chunks),
        ),
    decreases chunks.len(),
{
    if chunks.len() == 0 {
        if k >= PADDING_CHUNKS {
            assert(idle_reader(k + chunks.len(), w) == idle_reader(k, w));
        }
    } else {
        let first = if k < PADDING_CHUNKS {
            padded_record(chunks[0], paddings[0])
        } else {
            chunks[0]
        };
        assert(chunks[0].len() <= MAX_CHUNK);
        assert(paddings[0].len() <= 255);
        if k < PADDING_CHUNKS {
            lemma_decode_frame(k, w, chunks[0], paddings[0]);
        } else {
            lemma_decode_passthrough(idle_reader(k, w), chunks[0]);
            assert(idle_reader(k + 1, w) == idle_reader(k, w));
        }
        let rest_chunks = chunks.drop_first();
        let rest_paddings = paddings.drop_first();
        assert forall|i: int| 0 <= i < rest_chunks.len() implies #[trigger] rest_chunks[i].len()
            <= MAX_CHUNK by {
            assert(rest_chunks[i] == chunks[i + 1]);
        }
        assert forall|i: int| 0 <= i < rest_paddings.len() implies #[trigger] rest_paddings[i].len()
            <= 255 by {
            assert(rest_paddings[i] == paddings[i + 1]);
        }
        lemma_roundtrip_from(k + 1, w, rest_chunks, rest_paddings);
        lemma_decode_append(idle_reader(k, w), first, writer_wire(k + 1, rest_chunks, rest_paddings));
        assert(k + 1 + rest_chunks.len() == k + chunks.len());
    }
}

/// What a writer sends through the padding protocol, the peer's reader
/// gives back unchanged: the payload of the first eight records without
/// their headers and padding, whatever bytes the padding holds, and every
/// later chunk as it is.
pub proof fn lemma_padding_roundtrip(chunks: Seq<Seq<u8>>, paddings: Seq<Seq<u8>>)
    requires
        chunks.len() == paddings.len(),
        forall|i: int| 0 <= i < chunks.len() ==> #[trigger] chunks[i].len() <= MAX_CHUNK,
        forall|i: int| 0 <= i < paddings.len() ==> #[trigger] paddings[i].len() <= 255,
    ensures
        decode(NaivePadding::spec_new(), writer_wire(0, chunks, paddings)).1 == flatten(chunks),
{
    lemma_roundtrip_from(0, 0, chunks, paddings);
}

/// Reads the pieces one after the other from state `s`: the final state
/// and the payload of each piece, in order.
pub open spec fn decode_pieces(s: NaivePadding, pieces: Seq<Seq<u8>>) -> (NaivePadding, Seq<u8>)
    decreases pieces.len(),
{
    if pieces.len() == 0 {
        (s, Seq::empty())
    } else {
        let first = decode(s, pieces[0]);
        let rest = decode_pieces(first.0, pieces.drop_first());
        (rest.0, first.1 + rest.1)
    }
}

/// Reading pieces one after the other is reading them all at once.
pub proof fn lemma_decode_pieces(s: NaivePadding, pieces: Seq<Seq<u8>>)
    ensures
        decode_pieces(s, pieces) == decode(s, flatten(pieces)),
    decreases pieces.len(),
{
    if pieces.len() == 0 {
        assert(decode(s, Seq::<u8>::empty()) == (s, Seq::<u8>::empty()));
    } else {
        let first = decode(s, pieces[0]);
        lemma_decode_pieces(first.0, pieces.drop_first());
        lemma_decode_append(s, pieces[0], flatten(pieces.drop_first()));
    }
}

/// However the bytes a writer sent through the padding protocol are split
/// into reads, the payloads that the reads give, one after the other, are
/// the chunks it sent: record headers and padding never come out, and
/// nothing is lost or repeated.
pub proof fn lemma_reads_give_payload(chunks: Seq<Seq<u8>>, paddings: Seq<Seq<u8>>, pieces: Seq<Seq<u8>>)
    requires
        chunks.len() == paddings.len(),
        forall|i: int| 0 <= i < chunks.len() ==> #[trigger] chunks[i].len() <= MAX_CHUNK,
        forall|i: int| 0 <= i < paddings.len() ==> #[trigger] paddings[i].len() <= 255,
        flatten(pieces) == writer_wire(0, chunks, paddings),
    ensures
        decode_pieces(NaivePadding::spec_new(), pieces).1 == flatten(chunks),
{
    lemma_decode_pieces(NaivePadding::spec_new(), pieces);
    lemma_padding_roundtrip(chunks, paddings);
}

/// Reading a stream in pieces gives the same payload as reading it at once.
pub proof fn lemma_decode_in_pieces(s: NaivePadding, a: Seq<u8>, b: Seq<u8>)
    ensures
        decode(decode(s, a).0, b).1 == decode(s, a + b).1.subrange(decode(s, a).1.len() as int, decode(s, a + b).1.len() as int),
        decode(s, a).1 == decode(s, a + b).1.take(decode(s, a).1.len() as int),
{
    lemma_decode_append(s, a, b);
    let x = decode(s, a).1;
    let y = decode(decode(s, a).0, b).1;
    assert((x + y).subrange(x.len() as int, (x + y).len() as int) =~= y);
    assert((x + y).take(x.len() as int) =~= x);
}

/// A uniformly random number in `low..=high`, drawn with `fastrand::usize`.
#[verifier::external_body]
fn random_in(low: usize, high: usize) -> (r: usize)
    requires
        low <= high,
    ensures
        low <= r <= high,
{
    fastrand::usize(low..=high)
}

/// Bytes of a record payload taken from a write of `n` bytes.
pub open spec fn chunk_len(n: nat) -> nat {
    if n < MAX_CHUNK {
        n
    } else {
        MAX_CHUNK as nat
    }
}

/// Encodes one padded record.
pub fn padded_frame_bytes(chunk: &[u8], padding: u8) -> (r: Vec<u8>)
    requires
        chunk@.len() <= MAX_CHUNK,
    ensures
        r@ == padded_frame(chunk@, padding as nat),
{
    let len = chunk.len();
    let mut r: Vec<u8> = Vec::new();
    r.push((len / 256) as u8);
    r.push((len % 256) as u8);
    r.push(padding);
    let mut i: usize = 0;
    while i < len
        invariant
            len == chunk@.len(),
            0 <= i <= len,
            r@ == seq![(len / 256) as u8, (len % 256) as u8, padding] + chunk@.take(i as int),
        decreases len - i,
    {
        r.push(chunk[i]);
        proof {
            assert(chunk@.take(i as int).push(chunk@[i as int]) =~= chunk@.take(i + 1));
        }
        i = i + 1;
    }
    let mut j: u8 = 0;
    while j < padding
        invariant
            j <= padding,
            r@ == seq![(len / 256) as u8, (len % 256) as u8, padding] + chunk@ + Seq::new(
                j as nat,
                |k: int| 0u8,
            ),
        decreases padding - j,
    {
        r.push(0u8);
        proof {
            assert(Seq::new(j as nat, |k: int| 0u8).push(0u8) =~= Seq::new(
                (j + 1) as nat,
                |k: int| 0u8,
            ));
        }
        j = j + 1;
    }
    proof {
        assert(chunk@.take(len as int) =~= chunk@);
    }
    r
}

impl NaivePadding {
    /// The bytes to send for a write of `input` and how many input bytes
    /// they carry. The first eight records get a random padding of at most
    /// 255 zero bytes; an empty write sends nothing.
    pub fn write_record(&self, input: &[u8]) -> (r: (Vec<u8>, usize))
        requires
            self.wf(),
        ensures
            r.1 == chunk_len(input@.len()),
            input@.len() == 0 ==> r.0@.len() == 0,
            input@.len() > 0 && self.write_padding < PADDING_CHUNKS ==> exists|p: nat|
                p <= 255 && r.0@ == #[trigger] padded_frame(input@.take(r.1 as int), p),
            input@.len() > 0 && self.write_padding >= PADDING_CHUNKS ==> r.0@ == input@.take(
                r.1 as int,
            ),
    {
        if input.len() == 0 {
            return (Vec::new(), 0);
        }
        let taken = if input.len() < MAX_CHUNK {
            input.len()
        } else {
            MAX_CHUNK
        };
        let chunk = slice_prefix(input, taken);
        if self.write_padding >= PADDING_CHUNKS {
            return (chunk, taken);
        }
        let padding = random_in(0, 255) as u8;
        let frame = padded_frame_bytes(chunk.as_slice(), padding);
        proof {
            let p = padding as nat;
            assert(frame@ == padded_frame(input@.take(taken as int), p));
            assert(p <= 255);
        }
        let result = (frame, taken);
        proof {
            let p = padding as nat;
            assert(result.0@ == padded_frame(input@.take(result.1 as int), p));
            assert(exists|q: nat| q <= 255 && result.0@ == #[trigger] padded_frame(input@.take(result.1 as int), q));
        }
        result
    }

    /// Records that a write produced by `write_record` reached the stream.
    pub fn record_sent(&mut self)
        requires
            old(self).wf(),
        ensures
            final(self).wf(),
            final(self).write_padding == if old(self).write_padding < PADDING_CHUNKS {
                old(self).write_padding + 1
            } else {
                old(self).write_padding as int
            },
            final(self).read_padding == old(self).read_padding,
            final(self).read_remaining == old(self).read_remaining,
            final(self).padding_remaining == old(self).padding_remaining,
            final(self).header_len == old(self).header_len,
            final(self).header0 == old(self).header0,
            final(self).header1 == old(self).header1,
    {
        if self.write_padding < PADDING_CHUNKS {
            self.write_padding = self.write_padding + 1;
        }
    }
}

/// How many raw stream bytes a padded read takes next.
#[derive(Clone, Copy, Debug, PartialEq, Eq, Structural)]
pub enum RawRead {
    /// Exactly this many bytes of record header or padding, which carry no
    /// payload.
    Exact(usize),
    /// One read of at most this many bytes, all of them payload.
    Once(usize),
}

/// Record header bytes carry no payload.
proof fn lemma_decode_header(s: NaivePadding, h: Seq<u8>)
    requires
        s.read_remaining == 0,
        s.padding_remaining == 0,
        s.read_padding < PADDING_CHUNKS,
        s.header_len <= 2,
        h.len() <= 3 - s.header_len,
    ensures
        decode(s, h).1.len() == 0,
    decreases h.len(),
{
    if h.len() > 0 {
        let s1 = read_step(s, h[0]).0;
        assert(read_step(s, h[0]).1 is None);
        assert(decode(s, h).1 == opt_bytes(read_step(s, h[0]).1) + decode(s1, h.drop_first()).1);
        if s.header_len < 2 {
            lemma_decode_header(s1, h.drop_first());
        } else {
            assert(h.drop_first().len() == 0);
            assert(decode(s1, h.drop_first()).1 == Seq::<u8>::empty());
        }
        assert(decode(s, h).1 =~= decode(s1, h.drop_first()).1);
    }
}

impl NaivePadding {
    /// The next raw read of a padded read that wants at most `wanted`
    /// payload bytes: the rest of the record header, the padding to skip,
    /// or the payload (at most what the record still holds and what is
    /// wanted; anything once the padded records are over).
    pub fn next_raw_read(&self, wanted: usize) -> (r: RawRead)
        requires
            self.wf(),
            wanted > 0,
        ensures
            r matches RawRead::Exact(n) ==> n > 0 && forall|input: Seq<u8>| input.len() <= n ==> (#[trigger] decode(*self, input)).1.len() == 0,
            r matches RawRead::Once(n) ==> 0 < n <= wanted && forall|input: Seq<u8>| input.len() <= n ==> (#[trigger] decode(*self, input)).1 == input,
    {
        if self.read_remaining > 0 {
            let n = if wanted < self.read_remaining { wanted } else { self.read_remaining };
            proof {
                assert forall|input: Seq<u8>| input.len() <= n implies (#[trigger] decode(*self, input)).1 == input by {
                    lemma_decode_payload(*self, input);
                }
            }
            RawRead::Once(n)
        } else if self.padding_remaining > 0 {
            proof {
                assert forall|input: Seq<u8>| input.len() <= self.padding_remaining implies (#[trigger] decode(*self, input)).1.len() == 0 by {
                    lemma_decode_padding(*self, input);
                }
            }
            RawRead::Exact(self.padding_remaining)
        } else if self.read_padding >= PADDING_CHUNKS {
            proof {
                assert forall|input: Seq<u8>| input.len() <= wanted implies (#[trigger] decode(*self, input)).1 == input by {
                    lemma_decode_passthrough(*self, input);
                }
            }
            RawRead::Once(wanted)
        } else {
            let n = 3 - self.header_len;
            proof {
                assert forall|input: Seq<u8>| input.len() <= n implies (#[trigger] decode(*self, input)).1.len() == 0 by {
                    lemma_decode_header(*self, input);
                }
            }
            RawRead::Exact(n)
        }
    }
}

/// Copies the first `n` bytes of a slice.
pub fn slice_prefix(input: &[u8], n: usize) -> (r: Vec<u8>)
    requires
        n <= input@.len(),
    ensures
        r@ == input@.take(n as int),
{
    let mut r: Vec<u8> = Vec::new();
    let mut i: usize = 0;
    while i < n
        invariant
            n <= input@.len(),
            0 <= i <= n,
            r@ == input@.take(i as int),
        decreases n - i,
    {
        r.push(input[i]);
        proof {
            assert(input@.take(i as int).push(input@[i as int]) =~= input@.take(i + 1));
        }
        i = i + 1;
    }
    r
}

/// The characters that the random part of the `Padding` header is drawn from.
pub open spec fn padding_alphabet() -> Seq<char> {
    seq!['!', '#', '$', '(', ')', '+', '<', '>', '?', '@', '[', ']', '^', '`', '{', '}']
}

/// A `Padding` request header value: 30 to 61 characters, the first sixteen
/// drawn from the padding alphabet and the rest `~`.
pub open spec fn is_padding_header(v: Seq<char>) -> bool {
    &&& 30 <= v.len() < 62
    &&& forall|i: int| 0 <= i < 16 ==> padding_alphabet().contains(#[trigger] v[i])
    &&& forall|i: int| 16 <= i < v.len() ==> #[trigger] v[i] == '~'
}

fn alphabet_char(i: usize) -> (c: char)
    requires
        i < 16,
    ensures
        c == padding_alphabet()[i as int],
{
    match i {
        0 => '!',
        1 => '#',
        2 => '$',
        3 => '(',
        4 => ')',
        5 => '+',
        6 => '<',
        7 => '>',
        8 => '?',
        9 => '@',
        10 => '[',
        11 => ']',
        12 => '^',
        13 => '`',
        14 => '{',
        _ => '}',
    }
}

/// Draws a random `Padding` header value.
pub fn padding_header() -> (s: String)
    ensures
        is_padding_header(s@),
{
    let length = random_in(30, 61);
    let mut chars: Vec<char> = Vec::new();
    let mut i: usize = 0;
    while i < length
        invariant
            30 <= length <= 61,
            0 <= i <= length,
            chars@.len() == i,
            forall|j: int| 0 <= j < i && j < 16 ==> padding_alphabet().contains(#[trigger] chars@[j]),
            forall|j: int| 16 <= j < i ==> #[trigger] chars@[j] == '~',
        decreases length - i,
    {
        if i < 16 {
            let k = random_in(0, 15);
            let c = alphabet_char(k);
            proof {
                assert(padding_alphabet()[k as int] == c);
            }
            chars.push(c);
        } else {
            chars.push('~');
        }
        i = i + 1;
    }
    string_from_chars(chars)
}

/// Parameters for an HTTP/2 or HTTP/3 Naive CONNECT tunnel.
#[derive(Clone, Debug)]
pub struct NaiveConnectOptions {
    /// HTTPS URL of the frontend/proxy server.
    pub proxy_url: String,
    /// Destination authority placed in the SagerNet extension header.
    pub destination: String,
    /// `Proxy-Authorization` value, commonly `Basic ...`.
    pub proxy_authorization: Option<String>,
    /// Additional request headers.
    pub extra_headers: Vec<Header>,
    /// Requests the SagerNet Cronet QUIC path.
    pub force_quic: bool,
    /// Optional network-isolation key used to create independent connection pools.
    pub network_isolation_key: Option<String>,
    /// Native stream priority.
    pub priority: i32,
    /// Internal asynchronous read size.
    pub read_buffer_size: usize,
}

/// Default size of each asynchronous native stream read.
pub const DEFAULT_READ_BUFFER_SIZE: usize = 32768;

impl NaiveConnectOptions {
    /// Creates options for one destination through one proxy URL.
    pub fn new(proxy_url: String, destination: String) -> (r: NaiveConnectOptions)
        ensures
            r.proxy_url@ == proxy_url@,
            r.destination@ == destination@,
            r.proxy_authorization is None,
            r.extra_headers@.len() == 0,
            !r.force_quic,
            r.network_isolation_key is None,
            r.priority == 0,
            r.read_buffer_size == DEFAULT_READ_BUFFER_SIZE,
    {
        NaiveConnectOptions {
            proxy_url,
            destination,
            proxy_authorization: None,
            extra_headers: Vec::new(),
            force_quic: false,
            network_isolation_key: None,
            priority: 0,
            read_buffer_size: DEFAULT_READ_BUFFER_SIZE,
        }
    }
}

/// The headers that follow the mandatory ones for an optional header.
pub open spec fn optional_header(name: Seq<char>, value: Option<String>) -> Seq<(Seq<char>, Seq<char>)> {
    match value {
        Some(v) => seq![(name, v@)],
        None => Seq::empty(),
    }
}

/// The CONNECT request headers of a Naive tunnel, in order.
pub open spec fn connect_header_views(options: NaiveConnectOptions, padding: Seq<char>) -> Seq<(Seq<char>, Seq<char>)> {
    seq![("-connect-authority"@, options.destination@), ("Padding"@, padding)]
        + optional_header("proxy-authorization"@, options.proxy_authorization)
        + (if options.force_quic { seq![("-force-quic"@, "true"@)] } else { Seq::empty() })
        + optional_header("-network-isolation-key"@, options.network_isolation_key)
        + options.extra_headers@.map_values(|h: Header| header_view(h))
}

impl NaiveConnectOptions {
    /// Builds the CONNECT request headers: the destination, the padding
    /// header, the optional authorization, QUIC and isolation-key headers,
    /// then the caller's extra headers.
    pub fn connect_headers(self, padding: String) -> (r: Vec<Header>)
        ensures
            r@.map_values(|h: Header| header_view(h)) == connect_header_views(self, padding@),
    {
        let ghost opts = self;
        let mut headers: Vec<Header> = Vec::new();
        headers.push(Header { name: String::from_str("-connect-authority"), value: self.destination });
        headers.push(Header { name: String::from_str("Padding"), value: padding });
        let ghost base = headers@.map_values(|h: Header| header_view(h));
        assert(base =~= seq![("-connect-authority"@, opts.destination@), ("Padding"@, padding@)]);
        match self.proxy_authorization {
            Some(authorization) => {
                headers.push(Header { name: String::from_str("proxy-authorization"), value: authorization });
            },
            None => {},
        }
        let ghost with_auth = headers@.map_values(|h: Header| header_view(h));
        assert(with_auth =~= base + optional_header("proxy-authorization"@, opts.proxy_authorization));
        if self.force_quic {
            headers.push(header("-force-quic", "true"));
        }
        let ghost with_quic = headers@.map_values(|h: Header| header_view(h));
        assert(with_quic =~= with_auth + (if opts.force_quic { seq![("-force-quic"@, "true"@)] } else { Seq::empty() }));
        match self.network_isolation_key {
            Some(key) => {
                headers.push(Header { name: String::from_str("-network-isolation-key"), value: key });
            },
            None => {},
        }
        let ghost with_key = headers@.map_values(|h: Header| header_view(h));
        assert(with_key =~= with_quic + optional_header("-network-isolation-key"@, opts.network_isolation_key));
        let mut extra = self.extra_headers;
        let ghost before = headers@;
        headers.append(&mut extra);
        proof {
            assert(headers@ =~= before + opts.extra_headers@);
            assert(headers@.map_values(|h: Header| header_view(h)) =~= with_key
                + opts.extra_headers@.map_values(|h: Header| header_view(h)));
        }
        headers
    }
}

/// Why the proxy refused a Naive CONNECT.
#[derive(Clone, Debug, PartialEq, Eq)]
pub struct HandshakeRejected {
    /// The `:status` value the proxy answered with, when it sent one.
    pub status: Option<String>,
}

/// The value of the first `:status` header.
pub open spec fn connect_status(headers: Seq<Header>) -> Option<Seq<char>>
    decreases headers.len(),
{
    if headers.len() == 0 {
        None
    } else if headers[0].name@ == ":status"@ {
        Some(headers[0].value@)
    } else {
        connect_status(headers.drop_first())
    }
}

impl NaiveConnection {
    /// Validates the CONNECT response headers: the tunnel is open when the
    /// first `:status` header is `200`, and the negotiated protocol is
    /// handed back.
    pub fn handshake(headers: &Vec<Header>, protocol: String) -> (r: Result<String, HandshakeRejected>)
        ensures
            r is Ok <==> connect_status(headers@) == Some("200"@),
            r matches Ok(p) ==> p@ == protocol@,
            r matches Err(e) ==> match e.status {
                Some(s) => connect_status(headers@) == Some(s@),
                None => connect_status(headers@) is None,
            },
    {
        let n = headers.len();
        let mut i: usize = 0;
        assert(headers@.skip(0) =~= headers@);
        while i < n
            invariant
                n == headers@.len(),
                0 <= i <= n,
                connect_status(headers@) == connect_status(headers@.skip(i as int)),
            decreases n - i,
        {
            proof {
                assert(headers@.skip(i as int).drop_first() =~= headers@.skip(i + 1));
            }
            if str_eq(headers[i].name.as_str(), ":status") {
                let status = headers[i].value.clone();
                if str_eq(status.as_str(), "200") {
                    return Ok(protocol);
                }
                return Err(HandshakeRejected { status: Some(status) });
            }
            i = i + 1;
        }
        Err(HandshakeRejected { status: None })
    }
}

impl HandshakeRejected {
    /// Describes the refusal: `Naive CONNECT returned status <status>`, or
    /// `missing` when no status came.
    pub fn message(&self) -> (s: String)
        ensures
            s@ == "Naive CONNECT returned status "@ + match self.status {
                Some(v) => v@,
                None => "missing"@,
            },
    {
        match &self.status {
            Some(v) => concat_str("Naive CONNECT returned status ", v.as_str()),
            None => concat_str("Naive CONNECT returned status ", "missing"),
        }
    }
}

/// Naive padding-protocol connection over a Cronet bidirectional stream:
/// the stream adapter's state and the padding state of both directions.
pub struct NaiveConnection {
    /// The unpadded stream adapter.
    pub inner: BidirectionalConnection,
    /// Padding state of both directions.
    pub padding: NaivePadding,
}

impl NaiveConnection {
    /// A new tunnel over a stream adapter.
    pub fn new(inner: BidirectionalConnection) -> (r: NaiveConnection)
        ensures
            r.inner == inner,
            r.padding == NaivePadding::spec_new(),
    {
        NaiveConnection { inner, padding: NaivePadding::new() }
    }

    /// Returns the unpadded stream adapter.
    pub fn inner(&self) -> (r: &BidirectionalConnection)
        ensures
            *r == self.inner,
    {
        &self.inner
    }

    /// Sets an absolute deadline for reads, writes and the CONNECT handshake.
    pub fn set_deadline(&mut self, deadline: Option<u64>)
        ensures
            final(self).inner.read_deadline == deadline,
            final(self).inner.write_deadline == deadline,
            final(self).inner.control == old(self).inner.control,
            final(self).inner.read == old(self).inner.read,
            final(self).inner.write == old(self).inner.write,
            final(self).padding == old(self).padding,
    {
        self.inner.set_deadline(deadline);
    }

    /// Sets an absolute deadline for reads and the CONNECT handshake.
    pub fn set_read_deadline(&mut self, deadline: Option<u64>)
        ensures
            final(self).inner.read_deadline == deadline,
            final(self).inner.write_deadline == old(self).inner.write_deadline,
            final(self).inner.control == old(self).inner.control,
            final(self).inner.read == old(self).inner.read,
            final(self).inner.write == old(self).inner.write,
            final(self).padding == old(self).padding,
    {
        self.inner.set_read_deadline(deadline);
    }

    /// Sets an absolute deadline for writes.
    pub fn set_write_deadline(&mut self, deadline: Option<u64>)
        ensures
            final(self).inner.write_deadline == deadline,
            final(self).inner.read_deadline == old(self).inner.read_deadline,
            final(self).inner.control == old(self).inner.control,
            final(self).inner.read == old(self).inner.read,
            final(self).inner.write == old(self).inner.write,
            final(self).padding == old(self).padding,
    {
        self.inner.set_write_deadline(deadline);
    }

    /// Sets a relative read timeout in nanoseconds from `now`; `None`
    /// disables it.
    pub fn set_read_timeout(&mut self, now: u64, timeout: Option<u64>) -> (r: Result<(), StreamError>)
        ensures
            r is Ok ==> final(self).inner.read_deadline == match timeout {
                Some(t) => Some((now + t) as u64),
                None => None,
            },
            r is Err ==> final(self).inner.read_deadline == old(self).inner.read_deadline,
            r == Err::<(), StreamError>(StreamError::ZeroTimeout) <==> timeout == Some(0u64),
            r == Err::<(), StreamError>(StreamError::TimeoutTooLarge) <==> (timeout matches Some(t)
                && t > 0 && now + t > u64::MAX),
            final(self).inner.write_deadline == old(self).inner.write_deadline,
            final(self).padding == old(self).padding,
    {
        self.inner.set_read_timeout(now, timeout)
    }

    /// Sets a relative write timeout in nanoseconds from `now`; `None`
    /// disables it.
    pub fn set_write_timeout(&mut self, now: u64, timeout: Option<u64>) -> (r: Result<(), StreamError>)
        ensures
            r is Ok ==> final(self).inner.write_deadline == match timeout {
                Some(t) => Some((now + t) as u64),
                None => None,
            },
            r is Err ==> final(self).inner.write_deadline == old(self).inner.write_deadline,
            r == Err::<(), StreamError>(StreamError::ZeroTimeout) <==> timeout == Some(0u64),
            r == Err::<(), StreamError>(StreamError::TimeoutTooLarge) <==> (timeout matches Some(t)
                && t > 0 && now + t > u64::MAX),
            final(self).inner.read_deadline == old(self).inner.read_deadline,
            final(self).padding == old(self).padding,
    {
        self.inner.set_write_timeout(now, timeout)
    }
}
} // verus!
