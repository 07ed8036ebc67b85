use vstd::prelude::*;

use crate::bidirectional::{BidirectionalStreamHandle, BidirectionalStreamHandler};
use crate::model::Header;
use crate::text::{concat_str, i32_to_decimal, signed_decimal};

verus! {

/// The I/O error kinds that stream failures are reported as.
#[derive(Clone, Copy, Debug, PartialEq, Eq, Structural)]
pub enum StreamErrorKind {
    UnexpectedEof,
    Other,
    Interrupted,
    TimedOut,
    InvalidInput,
}

/// What a blocking stream operation was waiting for when its deadline passed.
#[derive(Clone, Copy, Debug, PartialEq, Eq, Structural)]
pub enum WaitOperation {
    Headers,
    Readiness,
    Reading,
    Writing,
}

/// Failure of a socket-like bidirectional stream.
#[derive(Clone, Copy, Debug, PartialEq, Eq, Structural)]
pub enum StreamError {
    /// Both directions completed; no more data will flow.
    Completed,
    /// The stream failed with a Chromium net error.
    Failed(i32),
    /// The stream was canceled.
    Canceled,
    /// A deadline passed while waiting.
    TimedOut(WaitOperation),
    /// Cronet rejected the request parameters at start.
    Rejected,
    /// The native read call refused the request with this result.
    ReadRefused(i32),
    /// The native write call refused the request with this result.
    WriteRefused(i32),
    /// A zero relative timeout was given.
    ZeroTimeout,
    /// A relative timeout reaches past the end of the clock.
    TimeoutTooLarge,
}

/// The I/O kind that each stream failure is reported as.
pub open spec fn spec_error_kind(e: StreamError) -> StreamErrorKind {
    match e {
        StreamError::Completed => StreamErrorKind::UnexpectedEof,
        StreamError::Failed(_) => StreamErrorKind::Other,
        StreamError::Canceled => StreamErrorKind::Interrupted,
        StreamError::TimedOut(_) => StreamErrorKind::TimedOut,
        StreamError::Rejected => StreamErrorKind::InvalidInput,
        StreamError::ReadRefused(_) => StreamErrorKind::Other,
        StreamError::WriteRefused(_) => StreamErrorKind::Other,
        StreamError::ZeroTimeout => StreamErrorKind::InvalidInput,
        StreamError::TimeoutTooLarge => StreamErrorKind::InvalidInput,
    }
}

/// The diagnostic text of each stream failure.
pub open spec fn spec_error_message(e: StreamError) -> Seq<char> {
    match e {
        StreamError::Completed => "bidirectional stream completed"@,
        StreamError::Failed(n) => "Chromium net error "@ + signed_decimal(n as int),
        StreamError::Canceled => "bidirectional stream canceled"@,
        StreamError::TimedOut(op) => "timed out while "@ + match op {
            WaitOperation::Headers => "waiting for response headers"@,
            WaitOperation::Readiness => "waiting for stream readiness"@,
            WaitOperation::Reading => "reading bidirectional stream"@,
            WaitOperation::Writing => "writing bidirectional stream"@,
        },
        StreamError::Rejected => "Cronet rejected bidirectional stream parameters"@,
        StreamError::ReadRefused(n) => "bidirectional_stream_read returned "@ + signed_decimal(
            n as int,
        ),
        StreamError::WriteRefused(n) => "bidirectional_stream_write returned "@ + signed_decimal(
            n as int,
        ),
        StreamError::ZeroTimeout => "zero timeout is invalid"@,
        StreamError::TimeoutTooLarge => "timeout is too large"@,
    }
}

impl StreamError {
    /// The I/O kind that this failure is reported as.
    pub fn kind(&self) -> (k: StreamErrorKind)
        ensures
            k == spec_error_kind(*self),
    {
        match self {
            StreamError::Completed => StreamErrorKind::UnexpectedEof,
            StreamError::Failed(_) => StreamErrorKind::Other,
            StreamError::Canceled => StreamErrorKind::Interrupted,
            StreamError::TimedOut(_) => StreamErrorKind::TimedOut,
            StreamError::Rejected => StreamErrorKind::InvalidInput,
            StreamError::ReadRefused(_) => StreamErrorKind::Other,
            StreamError::WriteRefused(_) => StreamErrorKind::Other,
            StreamError::ZeroTimeout => StreamErrorKind::InvalidInput,
            StreamError::TimeoutTooLarge => StreamErrorKind::InvalidInput,
        }
    }

    /// The diagnostic text of this failure.
    pub fn message(&self) -> (s: String)
        ensures
            s@ == spec_error_message(*self),
    {
        match self {
            StreamError::Completed => String::from_str("bidirectional stream completed"),
            StreamError::Failed(n) => {
                let d = i32_to_decimal(*n);
                concat_str("Chromium net error ", d.as_str())
            },
            StreamError::Canceled => String::from_str("bidirectional stream canceled"),
            StreamError::TimedOut(op) => match op {
                WaitOperation::Headers => concat_str("timed out while ", "waiting for response headers"),
                WaitOperation::Readiness => concat_str("timed out while ", "waiting for stream readiness"),
                WaitOperation::Reading => concat_str("timed out while ", "reading bidirectional stream"),
                WaitOperation::Writing => concat_str("timed out while ", "writing bidirectional stream"),
            },
            StreamError::Rejected => String::from_str("Cronet rejected bidirectional stream parameters"),
            StreamError::ReadRefused(n) => {
                let d = i32_to_decimal(*n);
                concat_str("bidirectional_stream_read returned ", d.as_str())
            },
            StreamError::WriteRefused(n) => {
                let d = i32_to_decimal(*n);
                concat_str("bidirectional_stream_write returned ", d.as_str())
            },
            StreamError::ZeroTimeout => String::from_str("zero timeout is invalid"),
            StreamError::TimeoutTooLarge => String::from_str("timeout is too large"),
        }
    }
}

/// Read direction of the stream: the buffer the native read fills and how
/// much of a completed read has been handed out.
pub struct ReadState {
    /// Storage filled by the outstanding native read.
    pub buffer: Vec<u8>,
    /// Whether a native read is outstanding.
    pub pending: bool,
    /// Byte count of the last completed read not yet fully consumed.
    pub completed: Option<usize>,
    /// Bytes of the completed read already handed out.
    pub offset: usize,
    /// Whether the peer ended its direction.
    pub eof: bool,
}

/// Usable bytes of a completed read: the reported count, bounded by the buffer.
pub open spec fn completed_count(r: ReadState) -> int {
    match r.completed {
        Some(c) => if c < r.buffer@.len() { c as int } else { r.buffer@.len() as int },
        None => 0,
    }
}

/// Bytes of the completed read that have not been handed out yet.
pub open spec fn unread_bytes(r: ReadState) -> Seq<u8> {
    match r.completed {
        Some(_) => r.buffer@.subrange(r.offset as int, completed_count(r)),
        None => Seq::empty(),
    }
}

/// How many bytes a copy into an output of `out_len` bytes hands out: all
/// unread bytes of the completed read, or as many as fit.
pub open spec fn copy_count(r: ReadState, out_len: int) -> int {
    if unread_bytes(r).len() < out_len {
        unread_bytes(r).len() as int
    } else {
        out_len
    }
}

impl ReadState {
    /// The offset never passes the usable bytes of the completed read.
    pub open spec fn wf(self) -> bool {
        &&& self.completed is Some ==> self.offset <= completed_count(self)
        &&& self.completed is None ==> self.offset == 0
    }
}

/// Copies as many unread bytes of the last completed read as fit in
/// `output`; `None` when no completed read is waiting. A read is forgotten
/// once all its bytes have been handed out.
pub fn copy_available(read: &mut ReadState, output: &mut [u8]) -> (r: Option<usize>)
    requires
        old(read).wf(),
    ensures
        final(read).wf(),
        final(read).buffer@ == old(read).buffer@,
        final(read).pending == old(read).pending,
        final(read).eof == old(read).eof,
        old(read).completed is None ==> r is None && final(read).completed is None
            && final(output)@ == old(output)@,
        old(read).completed is Some ==> (r matches Some(n) && n == copy_count(*old(read), old(output)@.len() as int)),
        r matches Some(n) ==> final(output)@ == unread_bytes(*old(read)).take(n as int) + old(
            output,
        )@.skip(n as int),
        r matches Some(n) ==> unread_bytes(*final(read)) == unread_bytes(*old(read)).skip(n as int),
        r matches Some(n) ==> (final(read).completed is None <==> n == unread_bytes(
            *old(read),
        ).len()),
        r matches Some(n) ==> if n == unread_bytes(*old(read)).len() {
            final(read).offset == 0
        } else {
            final(read).completed == old(read).completed && final(read).offset == old(read).offset + n
        },
{
    let completed = match read.completed {
        Some(c) => c,
        None => return None,
    };
    let count = if completed < read.buffer.len() {
        completed
    } else {
        read.buffer.len()
    };
    let remaining = count - read.offset;
    let copied = if remaining < output.len() {
        remaining
    } else {
        output.len()
    };
    let ghost unread = unread_bytes(*read);
    let ghost out0 = output@;
    let offset = read.offset;
    let mut i: usize = 0;
    while i < copied
        invariant
            copied <= remaining,
            remaining == count - offset,
            count <= read.buffer@.len(),
            offset <= count,
            copied <= out0.len(),
            output@.len() == out0.len(),
            unread == read.buffer@.subrange(offset as int, count as int),
            0 <= i <= copied,
            forall|j: int| 0 <= j < i ==> output@[j] == unread[j],
            forall|j: int| i <= j < out0.len() ==> output@[j] == out0[j],
        decreases copied - i,
    {
        output[i] = read.buffer[offset + i];
        i = i + 1;
    }
    proof {
        assert(output@ =~= unread.take(copied as int) + out0.skip(copied as int));
    }
    read.offset = offset + copied;
    if read.offset == count {
        read.completed = None;
        read.offset = 0;
        proof {
            assert(unread.skip(copied as int) =~= Seq::<u8>::empty());
        }
    } else {
        proof {
            assert(unread_bytes(*read) =~= unread.skip(copied as int));
        }
    }
    Some(copied)
}

/// Handing out a completed read in pieces gives back its bytes in order.
pub proof fn lemma_copies_in_order(unread: Seq<u8>, first: nat, second: nat)
    requires
        first + second <= unread.len(),
    ensures
        unread.take(first as int) + unread.skip(first as int).take(second as int) == unread.take(
            (first + second) as int,
        ),
{
    assert(unread.take(first as int) + unread.skip(first as int).take(second as int) =~= unread.take(
        (first + second) as int,
    ));
}


/// Stream-wide state reported by the native callbacks.
pub struct Control {
    /// Reads and writes may begin.
    pub ready: bool,
    /// Response headers, once they arrived.
    pub headers: Option<Vec<Header>>,
    /// Protocol negotiated for the response.
    pub negotiated_protocol: String,
    /// The failure or completion that ended the stream.
    pub terminal: Option<StreamError>,
}

/// Write direction of the stream.
pub struct WriteState {
    /// Bytes handed to the outstanding native write.
    pub buffer: Vec<u8>,
    /// Whether a native write is outstanding.
    pub pending: bool,
}

/// State of a socket-like adapter over a Cronet H2/H3 bidirectional stream:
/// what the native callbacks reported, both directions' buffers, and the
/// deadlines, as instants in nanoseconds of the caller's monotonic clock.
///
/// One read and one write may be outstanding concurrently, matching
/// Cronet's stream contract.
pub struct BidirectionalConnection {
    pub control: Control,
    pub read: ReadState,
    pub write: WriteState,
    pub read_deadline: Option<u64>,
    pub write_deadline: Option<u64>,
}

/// Next step of a blocking wait.
#[derive(Clone, Copy, Debug, PartialEq, Eq, Structural)]
pub enum WaitStep {
    /// The awaited condition holds.
    Done,
    /// Wait without a deadline.
    Forever,
    /// Wait at most this many nanoseconds.
    For(u64),
    /// The deadline has passed while the condition still fails.
    TimedOut,
}

/// Decides how a wait proceeds: done when nothing is awaited any more,
/// timed out when the deadline is not later than now, otherwise wait for
/// the time left.
pub fn wait_step(waiting: bool, deadline: Option<u64>, now: u64) -> (r: WaitStep)
    ensures
        !waiting ==> r == WaitStep::Done,
        waiting && deadline is None ==> r == WaitStep::Forever,
        waiting && (deadline matches Some(d) && d < now) ==> r == WaitStep::TimedOut,
        waiting && (deadline matches Some(d) && d >= now) ==> r == WaitStep::For(
            (deadline.unwrap() - now) as u64,
        ),
{
    if !waiting {
        return WaitStep::Done;
    }
    match deadline {
        None => WaitStep::Forever,
        Some(d) => if d < now {
            WaitStep::TimedOut
        } else {
            WaitStep::For(d - now)
        },
    }
}

/// Decides whether a wait that returned ended in a timeout: only when the
/// wait itself timed out and the condition still fails.
pub fn wait_timed_out(wait_expired: bool, still_waiting: bool) -> (r: bool)
    ensures
        r == (wait_expired && still_waiting),
{
    wait_expired && still_waiting
}

/// The absolute deadline of a relative timeout in nanoseconds: none for no
/// timeout; a zero timeout is invalid, and one that passes the end of the
/// clock is too large.
pub fn timeout_deadline(now: u64, timeout: Option<u64>) -> (r: Result<Option<u64>, StreamError>)
    ensures
        timeout is None ==> r == Ok::<Option<u64>, StreamError>(None),
        timeout == Some(0u64) ==> r == Err::<Option<u64>, StreamError>(StreamError::ZeroTimeout),
        (timeout matches Some(t) && t > 0 && now + t > u64::MAX) ==> r == Err::<
            Option<u64>,
            StreamError,
        >(StreamError::TimeoutTooLarge),
        (timeout matches Some(t) && t > 0 && now + t <= u64::MAX) ==> r == Ok::<
            Option<u64>,
            StreamError,
        >(Some((now + timeout.unwrap()) as u64)),
{
    match timeout {
        None => Ok(None),
        Some(t) => {
            if t == 0 {
                Err(StreamError::ZeroTimeout)
            } else if t > u64::MAX - now {
                Err(StreamError::TimeoutTooLarge)
            } else {
                Ok(Some(now + t))
            }
        },
    }
}

/// How a read proceeds after the stream became ready.
#[derive(Clone, Copy, Debug, PartialEq, Eq, Structural)]
pub enum ReadStep {
    /// This many bytes were handed out without a native read.
    Copied(usize),
    /// The peer ended its direction.
    Eof,
    /// A native read into the read buffer must be issued.
    Issue,
}

impl BidirectionalConnection {
    /// Invariant of the adapter state.
    pub open spec fn wf(&self) -> bool {
        &&& self.read.wf()
        &&& self.read.buffer@.len() >= 1
    }

    /// Creates the state of a new connection whose native reads use a
    /// buffer of `read_buffer_size` bytes (at least one).
    pub fn new(read_buffer_size: usize) -> (r: BidirectionalConnection)
        ensures
            r.wf(),
            r.read.buffer@.len() == if read_buffer_size == 0 { 1 } else { read_buffer_size as int },
            !r.control.ready,
            r.control.headers is None,
            r.control.negotiated_protocol@.len() == 0,
            r.control.terminal is None,
            !r.read.pending,
            r.read.completed is None,
            !r.read.eof,
            r.write.buffer@.len() == 0,
            !r.write.pending,
            r.read_deadline is None,
            r.write_deadline is None,
    {
        let size = if read_buffer_size == 0 {
            1
        } else {
            read_buffer_size
        };
        let buffer = zeroed(size);
        BidirectionalConnection {
            control: Control {
                ready: false,
                headers: None,
                negotiated_protocol: String::new(),
                terminal: None,
            },
            read: ReadState { buffer, pending: false, completed: None, offset: 0, eof: false },
            write: WriteState { buffer: Vec::new(), pending: false },
            read_deadline: None,
            write_deadline: None,
        }
    }

    /// Maps the native answer to a start request.
    pub fn start(accepted: bool) -> (r: Result<(), StreamError>)
        ensures
            accepted <==> r is Ok,
            !accepted ==> r == Err::<(), StreamError>(StreamError::Rejected),
    {
        if accepted {
            Ok(())
        } else {
            Err(StreamError::Rejected)
        }
    }

    /// Whether a header wait must keep waiting.
    pub fn awaiting_headers(&self) -> (r: bool)
        ensures
            r == (self.control.headers is None && self.control.terminal is None),
    {
        self.control.headers.is_none() && self.control.terminal.is_none()
    }

    /// Whether a readiness wait must keep waiting.
    pub fn awaiting_ready(&self) -> (r: bool)
        ensures
            r == (!self.control.ready && self.control.terminal is None),
    {
        !self.control.ready && self.control.terminal.is_none()
    }

    /// Outcome of waiting for response headers, once the caller waited
    /// while `awaiting_headers` held or until the read deadline: a timeout,
    /// the error that ended the stream, or the headers (empty when none
    /// arrived) and the negotiated protocol.
    pub fn wait_for_headers(&self, timed_out: bool) -> (r: Result<(Vec<Header>, String), StreamError>)
        ensures
            timed_out ==> (r matches Err(e) && e == StreamError::TimedOut(WaitOperation::Headers)),
            !timed_out && self.control.terminal is Some ==> (r matches Err(f) && Some(f)
                == self.control.terminal),
            !timed_out && self.control.terminal is None ==> (r matches Ok(v) && v.1@
                == self.control.negotiated_protocol@ && match self.control.headers {
                Some(h) => v.0@ == h@,
                None => v.0@.len() == 0,
            }),
    {
        if timed_out {
            return Err(StreamError::TimedOut(WaitOperation::Headers));
        }
        if let Some(e) = self.control.terminal {
            return Err(e);
        }
        let headers = match &self.control.headers {
            Some(h) => copy_headers(h),
            None => Vec::new(),
        };
        Ok((headers, self.control.negotiated_protocol.clone()))
    }

    /// Outcome of waiting until reads and writes may begin, once the caller
    /// waited while `awaiting_ready` held or until the deadline: a timeout,
    /// the error that ended the stream, or success.
    pub fn wait_ready(&self, timed_out: bool) -> (r: Result<(), StreamError>)
        ensures
            timed_out ==> r == Err::<(), StreamError>(StreamError::TimedOut(WaitOperation::Readiness)),
            !timed_out ==> match self.control.terminal {
                Some(e) => r == Err::<(), StreamError>(e),
                None => r is Ok,
            },
    {
        if timed_out {
            return Err(StreamError::TimedOut(WaitOperation::Readiness));
        }
        match self.control.terminal {
            Some(e) => Err(e),
            None => Ok(()),
        }
    }

    /// The error that ended the stream, if any.
    pub fn terminal_error(&self) -> (r: Option<StreamError>)
        ensures
            r == self.control.terminal,
    {
        self.control.terminal
    }

    /// First part of a read once the stream is ready: hand out unread bytes
    /// of the last completed read, report the end of the peer's direction,
    /// or prepare a native read into the read buffer.
    pub fn read_available(&mut self, output: &mut [u8]) -> (r: ReadStep)
        requires
            old(self).wf(),
        ensures
            final(self).wf(),
            final(self).read.buffer@ == old(self).read.buffer@,
            old(output)@.len() == 0 ==> r == ReadStep::Copied(0),
            old(self).read.completed is Some ==> r == ReadStep::Copied(
                copy_count(old(self).read, old(output)@.len() as int) as usize,
            ),
            r matches ReadStep::Copied(n) ==> n <= old(output)@.len() && n <= old(self).read.buffer@.len(),
            r matches ReadStep::Copied(n) ==> (final(output)@ == unread_bytes(old(self).read).take(
                n as int,
            ) + old(output)@.skip(n as int) && unread_bytes(final(self).read) == unread_bytes(
                old(self).read,
            ).skip(n as int)),
            r == ReadStep::Eof ==> old(self).read.completed is None && old(self).read.eof,
            r == ReadStep::Issue ==> old(self).read.completed is None && !old(self).read.eof
                && final(self).read.pending && final(self).read.completed is None,
            r != ReadStep::Issue ==> final(self).read.pending == old(self).read.pending,
            final(self).control == old(self).control,
            final(self).write == old(self).write,
            final(self).read_deadline == old(self).read_deadline,
            final(self).write_deadline == old(self).write_deadline,
    {
        if output.len() == 0 {
            return ReadStep::Copied(0);
        }
        match copy_available(&mut self.read, output) {
            Some(n) => return ReadStep::Copied(n),
            None => {},
        }
        if self.read.eof {
            return ReadStep::Eof;
        }
        self.read.completed = None;
        self.read.offset = 0;
        self.read.pending = true;
        ReadStep::Issue
    }

    /// The native read call refused the request with `result`.
    pub fn read_refused(&mut self, result: i32) -> (e: StreamError)
        requires
            old(self).wf(),
        ensures
            final(self).wf(),
            !final(self).read.pending,
            e == StreamError::ReadRefused(result),
            final(self).read.buffer@ == old(self).read.buffer@,
            final(self).read.completed == old(self).read.completed,
            final(self).control == old(self).control,
    {
        self.read.pending = false;
        StreamError::ReadRefused(result)
    }

    /// Last part of a read after waiting for the native read: a timeout, the
    /// error that ended the stream, or the bytes the read delivered.
    pub fn read_finish(&mut self, output: &mut [u8], timed_out: bool) -> (r: Result<usize, StreamError>)
        requires
            old(self).wf(),
        ensures
            final(self).wf(),
            timed_out ==> r == Err::<usize, StreamError>(StreamError::TimedOut(WaitOperation::Reading)),
            !timed_out && old(self).control.terminal is Some ==> r == Err::<usize, StreamError>(
                old(self).control.terminal.unwrap(),
            ),
            !timed_out && old(self).control.terminal is None ==> (r matches Ok(n) && final(output)@
                == unread_bytes(old(self).read).take(n as int) + old(output)@.skip(n as int)
                && unread_bytes(final(self).read) == unread_bytes(old(self).read).skip(n as int)
                && n == if old(self).read.completed is Some {
                    copy_count(old(self).read, old(output)@.len() as int)
                } else {
                    0
                } && n <= old(output)@.len() && n <= old(self).read.buffer@.len()),
    {
        if timed_out {
            return Err(StreamError::TimedOut(WaitOperation::Reading));
        }
        if let Some(e) = self.control.terminal {
            return Err(e);
        }
        match copy_available(&mut self.read, output) {
            Some(n) => Ok(n),
            None => {
                assert(output@ =~= unread_bytes(old(self).read).take(0) + old(output)@.skip(0));
                Ok(0)
            },
        }
    }

    /// First part of a write once the stream is ready: keeps a copy of the
    /// input for the native write and marks it outstanding.
    pub fn begin_write(&mut self, input: &[u8])
        requires
            old(self).wf(),
        ensures
            final(self).wf(),
            final(self).write.buffer@ == input@,
            final(self).write.pending,
            final(self).control == old(self).control,
            final(self).read == old(self).read,
    {
        let mut buffer: Vec<u8> = Vec::new();
        let n = input.len();
        let mut i: usize = 0;
        while i < n
            invariant
                n == input@.len(),
                0 <= i <= n,
                buffer@ == input@.take(i as int),
            decreases n - i,
        {
            buffer.push(input[i]);
            proof {
                assert(input@.take(i as int).push(input@[i as int]) =~= input@.take(i + 1));
            }
            i = i + 1;
        }
        proof {
            assert(input@.take(n as int) =~= input@);
        }
        self.write.buffer = buffer;
        self.write.pending = true;
    }

    /// The native write call refused the request with `result`.
    pub fn write_refused(&mut self, result: i32) -> (e: StreamError)
        ensures
            !final(self).write.pending,
            e == StreamError::WriteRefused(result),
            final(self).write.buffer@ == old(self).write.buffer@,
            final(self).control == old(self).control,
            final(self).read == old(self).read,
    {
        self.write.pending = false;
        StreamError::WriteRefused(result)
    }

    /// Last part of a write after waiting for the native write: a timeout,
    /// the error that ended the stream, or the whole input written.
    pub fn write_finish(&self, input_len: usize, timed_out: bool) -> (r: Result<usize, StreamError>)
        ensures
            timed_out ==> r == Err::<usize, StreamError>(StreamError::TimedOut(WaitOperation::Writing)),
            !timed_out ==> match self.control.terminal {
                Some(e) => r == Err::<usize, StreamError>(e),
                None => r == Ok::<usize, StreamError>(input_len),
            },
    {
        if timed_out {
            return Err(StreamError::TimedOut(WaitOperation::Writing));
        }
        match self.control.terminal {
            Some(e) => Err(e),
            None => Ok(input_len),
        }
    }

    /// Sets an absolute deadline for subsequent reads and header waits.
    pub fn set_read_deadline(&mut self, deadline: Option<u64>)
        ensures
            final(self).read_deadline == deadline,
            final(self).write_deadline == old(self).write_deadline,
            final(self).control == old(self).control,
            final(self).read == old(self).read,
            final(self).write == old(self).write,
    {
        self.read_deadline = deadline;
    }

    /// Sets an absolute deadline for subsequent writes.
    pub fn set_write_deadline(&mut self, deadline: Option<u64>)
        ensures
            final(self).write_deadline == deadline,
            final(self).read_deadline == old(self).read_deadline,
            final(self).control == old(self).control,
            final(self).read == old(self).read,
            final(self).write == old(self).write,
    {
        self.write_deadline = deadline;
    }

    /// Sets both read and write deadlines.
    pub fn set_deadline(&mut self, deadline: Option<u64>)
        ensures
            final(self).read_deadline == deadline,
            final(self).write_deadline == deadline,
            final(self).control == old(self).control,
            final(self).read == old(self).read,
            final(self).write == old(self).write,
    {
        self.set_read_deadline(deadline);
        self.set_write_deadline(deadline);
    }

    /// Sets a relative read timeout in nanoseconds from `now`; `None`
    /// disables it. An invalid timeout leaves the deadline unchanged.
    pub fn set_read_timeout(&mut self, now: u64, timeout: Option<u64>) -> (r: Result<(), StreamError>)
        ensures
            r is Ok ==> final(self).read_deadline == match timeout {
                Some(t) => Some((now + t) as u64),
                None => None,
            },
            r is Err ==> final(self).read_deadline == old(self).read_deadline,
            r == Err::<(), StreamError>(StreamError::ZeroTimeout) <==> timeout == Some(0u64),
            r == Err::<(), StreamError>(StreamError::TimeoutTooLarge) <==> (timeout matches Some(t)
                && t > 0 && now + t > u64::MAX),
            r is Ok <==> (timeout is None || (timeout matches Some(t) && t > 0 && now + t
                <= u64::MAX)),
            final(self).write_deadline == old(self).write_deadline,
            final(self).control == old(self).control,
            final(self).read == old(self).read,
            final(self).write == old(self).write,
    {
        let deadline = timeout_deadline(now, timeout)?;
        self.set_read_deadline(deadline);
        Ok(())
    }

    /// Sets a relative write timeout in nanoseconds from `now`; `None`
    /// disables it. An invalid timeout leaves the deadline unchanged.
    pub fn set_write_timeout(&mut self, now: u64, timeout: Option<u64>) -> (r: Result<(), StreamError>)
        ensures
            r is Ok ==> final(self).write_deadline == match timeout {
                Some(t) => Some((now + t) as u64),
                None => None,
            },
            r is Err ==> final(self).write_deadline == old(self).write_deadline,
            r == Err::<(), StreamError>(StreamError::ZeroTimeout) <==> timeout == Some(0u64),
            r == Err::<(), StreamError>(StreamError::TimeoutTooLarge) <==> (timeout matches Some(t)
                && t > 0 && now + t > u64::MAX),
            r is Ok <==> (timeout is None || (timeout matches Some(t) && t > 0 && now + t
                <= u64::MAX)),
            final(self).read_deadline == old(self).read_deadline,
            final(self).control == old(self).control,
            final(self).read == old(self).read,
            final(self).write == old(self).write,
    {
        let deadline = timeout_deadline(now, timeout)?;
        self.set_write_deadline(deadline);
        Ok(())
    }

    /// The stream ended with `error`: both directions stop waiting.
    pub fn terminate(&mut self, error: StreamError)
        ensures
            old(self).wf() ==> final(self).wf(),
            final(self).control.terminal == Some(error),
            final(self).control.ready == old(self).control.ready,
            !final(self).read.pending,
            !final(self).write.pending,
            final(self).read.completed == old(self).read.completed,
            final(self).read.buffer@ == old(self).read.buffer@,
    {
        self.control.terminal = Some(error);
        self.read.pending = false;
        self.write.pending = false;
    }

}

impl BidirectionalStreamHandler for BidirectionalConnection {
    /// The stream can begin reading and writing.
    fn on_stream_ready(&mut self, stream: BidirectionalStreamHandle)
        ensures
            final(self).control.ready,
            final(self).control.terminal == old(self).control.terminal,
            final(self).read == old(self).read,
            final(self).write == old(self).write,
    {
        self.control.ready = true;
    }

    /// Response headers arrived.
    fn on_response_headers(&mut self, stream: BidirectionalStreamHandle, headers: Vec<Header>, negotiated_protocol: String)
        ensures
            final(self).control.headers == Some(headers),
            final(self).control.negotiated_protocol == negotiated_protocol,
            final(self).control.ready == old(self).control.ready,
            final(self).control.terminal == old(self).control.terminal,
            final(self).read == old(self).read,
            final(self).write == old(self).write,
    {
        self.control.headers = Some(headers);
        self.control.negotiated_protocol = negotiated_protocol;
    }

    /// A native read completed with `bytes_read` bytes (negative counts as
    /// none); a read of nothing marks the end of the peer's direction.
    fn on_read_completed(&mut self, stream: BidirectionalStreamHandle, bytes_read: i32)
        ensures
            old(self).wf() ==> final(self).wf(),
            final(self).read.completed == Some(if bytes_read < 0 { 0usize } else { bytes_read as usize }),
            final(self).read.offset == 0,
            final(self).read.eof == (bytes_read <= 0),
            !final(self).read.pending,
            final(self).read.buffer@ == old(self).read.buffer@,
            final(self).control == old(self).control,
            final(self).write == old(self).write,
    {
        let count: usize = if bytes_read < 0 {
            0
        } else {
            bytes_read as usize
        };
        self.read.completed = Some(count);
        self.read.offset = 0;
        self.read.eof = count == 0;
        self.read.pending = false;
    }

    /// A native write completed.
    fn on_write_completed(&mut self, stream: BidirectionalStreamHandle)
        ensures
            !final(self).write.pending,
            final(self).write.buffer@ == old(self).write.buffer@,
            final(self).control == old(self).control,
            final(self).read == old(self).read,
    {
        self.write.pending = false;
    }

    /// Both directions completed successfully.
    fn on_succeeded(&mut self, stream: BidirectionalStreamHandle)
        ensures
            old(self).wf() ==> final(self).wf(),
            final(self).control.terminal == Some(StreamError::Completed),
            !final(self).read.pending,
            !final(self).write.pending,
    {
        self.terminate(StreamError::Completed);
    }

    /// The stream failed with a Chromium net error.
    fn on_failed(&mut self, stream: BidirectionalStreamHandle, net_error: i32)
        ensures
            old(self).wf() ==> final(self).wf(),
            final(self).control.terminal == Some(StreamError::Failed(net_error)),
            !final(self).read.pending,
            !final(self).write.pending,
    {
        self.terminate(StreamError::Failed(net_error));
    }

    /// Cancellation completed.
    fn on_canceled(&mut self, stream: BidirectionalStreamHandle)
        ensures
            old(self).wf() ==> final(self).wf(),
            final(self).control.terminal == Some(StreamError::Canceled),
            !final(self).read.pending,
            !final(self).write.pending,
    {
        self.terminate(StreamError::Canceled);
    }
}

/// A buffer of `n` zero bytes.
pub fn zeroed(n: usize) -> (r: Vec<u8>)
    ensures
        r@.len() == n,
        forall|i: int| 0 <= i < n ==> r@[i] == 0u8,
{
    let mut r: Vec<u8> = Vec::new();
    let mut i: usize = 0;
    while i < n
        invariant
            0 <= i <= n,
            r@.len() == i,
            forall|j: int| 0 <= j < i ==> r@[j] == 0u8,
        decreases n - i,
    {
        r.push(0u8);
        i = i + 1;
    }
    r
}

/// Copies a header list, keeping every name and value.
pub fn copy_headers(headers: &Vec<Header>) -> (r: Vec<Header>)
    ensures
        r@ == headers@,
{
    let mut r: Vec<Header> = Vec::new();
    let n = headers.len();
    let mut i: usize = 0;
    while i < n
        invariant
            n == headers@.len(),
            0 <= i <= n,
            r@ == headers@.take(i as int),
        decreases n - i,
    {
        let h = &headers[i];
        r.push(Header { name: h.name.clone(), value: h.value.clone() });
        proof {
            assert(headers@.take(i as int).push(headers@[i as int]) =~= headers@.take(i + 1));
        }
        i = i + 1;
    }
    proof {
        assert(headers@.take(n as int) =~= headers@);
    }
    r
}
} // verus!
