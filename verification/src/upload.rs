use vstd::prelude::*;

verus! {

/// The state of a rewindable in-memory request body: the bytes, how many
/// were already handed to the native side, and whether the native side
/// closed the provider.
pub struct UploadState {
    /// The whole request body.
    pub bytes: Vec<u8>,
    /// Bytes handed out since the start or the last rewind.
    pub position: usize,
    /// Whether the native side closed the provider.
    pub closed: bool,
}

/// How far a read of at most `capacity` bytes advances from `position` in a
/// body of `len` bytes.
pub open spec fn advance(position: nat, len: nat, capacity: nat) -> nat {
    if position >= len {
        position
    } else if capacity >= len - position {
        len
    } else {
        position + capacity
    }
}

/// The bytes that successive reads with the given capacities hand out,
/// starting at `position`.
pub open spec fn chunks_from(bytes: Seq<u8>, position: nat, capacities: Seq<nat>) -> Seq<u8>
    decreases capacities.len(),
{
    if capacities.len() == 0 {
        Seq::empty()
    } else {
        let next = advance(position, bytes.len(), capacities[0]);
        bytes.subrange(position as int, next as int) + chunks_from(bytes, next, capacities.drop_first())
    }
}

/// Where successive reads with the given capacities leave the position.
pub open spec fn position_after(len: nat, position: nat, capacities: Seq<nat>) -> nat
    decreases capacities.len(),
{
    if capacities.len() == 0 {
        position
    } else {
        position_after(len, advance(position, len, capacities[0]), capacities.drop_first())
    }
}

/// The sum of a sequence of capacities.
pub open spec fn total(capacities: Seq<nat>) -> nat
    decreases capacities.len(),
{
    if capacities.len() == 0 {
        0
    } else {
        capacities[0] + total(capacities.drop_first())
    }
}

impl UploadState {
    /// Invariant: the position lies within the body.
    pub open spec fn wf(&self) -> bool {
        self.position <= self.bytes@.len()
    }

    /// A provider that owns `bytes`, at the start and open.
    pub fn new(bytes: Vec<u8>) -> (r: UploadState)
        ensures
            r.bytes == bytes,
            r.position == 0,
            !r.closed,
            r.wf(),
    {
        UploadState { bytes, position: 0, closed: false }
    }

    /// The body length reported to the native side, or -1 when it does not
    /// fit in `i64`.
    pub fn length(&self) -> (r: i64)
        ensures
            r == if self.bytes@.len() <= i64::MAX { self.bytes@.len() as int } else { -1 },
    {
        let n = self.bytes.len();
        if (n as u64) <= (i64::MAX as u64) {
            n as i64
        } else {
            -1
        }
    }

    /// Hands out the next bytes, at most `capacity` of them, and whether
    /// they end the body.
    pub fn read(&mut self, capacity: usize) -> (r: (Vec<u8>, bool))
        requires
            old(self).wf(),
        ensures
            final(self).wf(),
            final(self).position == advance(old(self).position as nat, old(self).bytes@.len(), capacity as nat),
            r.0@ == old(self).bytes@.subrange(old(self).position as int, final(self).position as int),
            r.1 == (final(self).position == old(self).bytes@.len()),
            final(self).bytes == old(self).bytes,
            final(self).closed == old(self).closed,
    {
        let len = self.bytes.len();
        let remaining = len - self.position;
        let count = if capacity >= remaining { remaining } else { capacity };
        let start = self.position;
        let mut chunk: Vec<u8> = Vec::new();
        let mut i: usize = 0;
        while i < count
            invariant
                len == self.bytes@.len(),
                start + count <= len,
                0 <= i <= count,
                chunk@ == self.bytes@.subrange(start as int, start + i),
            decreases count - i,
        {
            chunk.push(self.bytes[start + i]);
            proof {
                assert(chunk@ =~= self.bytes@.subrange(start as int, start + i + 1));
            }
            i = i + 1;
        }
        self.position = start + count;
        (chunk, self.position == len)
    }

    /// Starts the body again from its first byte.
    pub fn rewind(&mut self)
        ensures
            *final(self) == (UploadState { position: 0, ..*old(self) }),
            final(self).wf(),
    {
        self.position = 0;
    }

    /// Records that the native side closed the provider.
    pub fn close(&mut self)
        ensures
            *final(self) == (UploadState { closed: true, ..*old(self) }),
    {
        self.closed = true;
    }
}

/// Successive reads hand out the body in order, without gaps or repeats:
/// the bytes handed out from `position` are exactly the body between
/// `position` and where the reads stop.
pub proof fn lemma_reads_in_order(bytes: Seq<u8>, position: nat, capacities: Seq<nat>)
    requires
        position <= bytes.len(),
    ensures
        position <= position_after(bytes.len(), position, capacities) <= bytes.len(),
        chunks_from(bytes, position, capacities) == bytes.subrange(
            position as int,
            position_after(bytes.len(), position, capacities) as int,
        ),
    decreases capacities.len(),
{
    if capacities.len() > 0 {
        let next = advance(position, bytes.len(), capacities[0]);
        lemma_reads_in_order(bytes, next, capacities.drop_first());
        assert(chunks_from(bytes, position, capacities) =~= bytes.subrange(
            position as int,
            position_after(bytes.len(), position, capacities) as int,
        ));
    }
}

/// Reads whose capacities add up to at least the rest of the body hand out
/// the whole rest of it: after them the body is complete.
pub proof fn lemma_reads_complete(len: nat, position: nat, capacities: Seq<nat>)
    requires
        position <= len,
        total(capacities) >= len - position,
    ensures
        position_after(len, position, capacities) == len,
    decreases capacities.len(),
{
    if capacities.len() > 0 {
        let next = advance(position, len, capacities[0]);
        if next < len {
            assert(next == position + capacities[0]);
        }
        lemma_reads_complete(len, next, capacities.drop_first());
    }
}

} // verus!
