//! Bookkeeping of the two halves of an L2CAP channel.
//!
//! Android only offers blocking streams for L2CAP channels, so each half of a
//! channel hands its requests to a background thread and polls for the answer.
//! The decisions that the polling takes are made here; moving the requests and
//! answers between threads is left to the caller.
//!
//! The reading half is cancel safe: when a read is abandoned and a smaller one
//! follows, the bytes that do not fit are kept in an overflow buffer and handed
//! out, in order, by the reads that follow. No byte is lost or reordered.
use vstd::prelude::*;
use std::collections::hash_map::DefaultHasher;
use std::hash::Hasher;
use vstd::std_specs::hash::DefaultHasherAdditionalSpecFns;
use crate::bluedroid::bytes::copy_bytes;
use std::collections::VecDeque;

verus! {

broadcast use vstd::std_specs::vecdeque::group_vec_dequeue_axioms;

/// The hash that identifies the bytes of a write: the hash of the bytes with
/// the standard library's default hasher.
pub open spec fn data_hash(data: Seq<u8>) -> u64 {
    DefaultHasher::spec_finish(seq![data])
}

/// Hashes the bytes of a write with a fresh default hasher, so that the answer
/// to a write can be matched with the buffer it was for.
pub fn hash_data(data: &[u8]) -> (r: u64)
    ensures
        r == data_hash(data@),
{
    let mut hasher = DefaultHasher::new();
    hasher.write(data);
    let r = hasher.finish();
    assert(seq![data@] =~= Seq::<Seq<u8>>::empty().push(data@));
    r
}

/// What the reading half has to do next when it is polled.
#[derive(Debug, Clone, Copy, PartialEq, Eq, Structural)]
pub enum ReadStep {
    /// A request is outstanding: poll for its answer.
    AwaitResponse,
    /// Bytes of an earlier answer are buffered: hand them out.
    DrainBuffer,
    /// Nothing is outstanding or buffered: send a request for `len` bytes,
    /// as many as the caller's buffer holds.
    NewRequest { len: usize },
}

/// Something the reading half does with bytes, as seen by its caller: take in
/// the answer to a request into a buffer that holds `capacity` bytes, or hand
/// out buffered bytes into such a buffer.
pub enum ReadEvent {
    Received { data: Seq<u8>, capacity: nat },
    Drained { capacity: nat },
}

/// What one event hands out and what it leaves buffered, starting from the
/// buffered bytes `buffer`.
pub open spec fn read_event(buffer: Seq<u8>, e: ReadEvent) -> (Seq<u8>, Seq<u8>) {
    match e {
        ReadEvent::Received { data, capacity } => {
            let n = min_len(data.len() as int, capacity as int);
            (data.take(n), data.skip(n))
        },
        ReadEvent::Drained { capacity } => {
            let n = min_len(buffer.len() as int, capacity as int);
            (buffer.take(n), buffer.skip(n))
        },
    }
}

/// Everything a run of events hands out, in order, and what it leaves
/// buffered at the end.
pub open spec fn read_run(buffer: Seq<u8>, events: Seq<ReadEvent>) -> (Seq<u8>, Seq<u8>)
    decreases events.len(),
{
    if events.len() == 0 {
        (Seq::empty(), buffer)
    } else {
        let (out, rest) = read_event(buffer, events[0]);
        let (more, last) = read_run(rest, events.drop_first());
        (out + more, last)
    }
}

/// Every byte that a run of events receives, in order.
pub open spec fn read_received(events: Seq<ReadEvent>) -> Seq<u8>
    decreases events.len(),
{
    if events.len() == 0 {
        Seq::empty()
    } else {
        match events[0] {
            ReadEvent::Received { data, .. } => data + read_received(events.drop_first()),
            ReadEvent::Drained { .. } => read_received(events.drop_first()),
        }
    }
}

/// A run the reading half can go through from the buffered bytes `buffer`:
/// an answer is only received when nothing is buffered, since a request is
/// only sent then.
pub open spec fn valid_read_run(buffer: Seq<u8>, events: Seq<ReadEvent>) -> bool
    decreases events.len(),
{
    if events.len() == 0 {
        true
    } else {
        (events[0] is Received ==> buffer.len() == 0) && valid_read_run(
            read_event(buffer, events[0]).1,
            events.drop_first(),
        )
    }
}

/// The reading half loses and reorders nothing: over any run it can go
/// through, the bytes handed out, followed by the bytes still buffered, are
/// the bytes buffered at the start followed by every byte received.
pub proof fn reading_loses_nothing(buffer: Seq<u8>, events: Seq<ReadEvent>)
    requires
        valid_read_run(buffer, events),
    ensures
        read_run(buffer, events).0 + read_run(buffer, events).1 == buffer + read_received(events),
    decreases events.len(),
{
    if events.len() == 0 {
        assert(buffer + Seq::<u8>::empty() =~= buffer);
        assert(Seq::<u8>::empty() + buffer =~= buffer);
    } else {
        let (out, rest) = read_event(buffer, events[0]);
        reading_loses_nothing(rest, events.drop_first());
        let (more, last) = read_run(rest, events.drop_first());
        match events[0] {
            ReadEvent::Received { data, capacity } => {
                let n = min_len(data.len() as int, capacity as int);
                assert(data.take(n) + data.skip(n) =~= data);
                assert(buffer =~= Seq::<u8>::empty());
                assert((out + more) + last =~= out + (more + last));
                assert(data + read_received(events.drop_first()) =~= (data.take(n) + data.skip(n))
                    + read_received(events.drop_first()));
                assert(out + (rest + read_received(events.drop_first())) =~= (data.take(n)
                    + data.skip(n)) + read_received(events.drop_first()));
                assert(buffer + (data + read_received(events.drop_first())) =~= data
                    + read_received(events.drop_first()));
            },
            ReadEvent::Drained { capacity } => {
                let n = min_len(buffer.len() as int, capacity as int);
                assert(buffer.take(n) + buffer.skip(n) =~= buffer);
                assert((out + more) + last =~= out + (more + last));
                assert(out + (rest + read_received(events.drop_first())) =~= (buffer.take(n)
                    + buffer.skip(n)) + read_received(events.drop_first()));
            },
        }
    }
}

/// State of the reading half of a channel.
#[derive(Debug)]
pub struct ReadState {
    awaiting: bool,
    /// Overflow buffer: bytes of an answer that did not fit into the buffer of
    /// the read that received them.
    cancel_buffer: VecDeque<u8>,
}

/// The smaller of two lengths.
pub open spec fn min_len(a: int, b: int) -> int {
    if a < b {
        a
    } else {
        b
    }
}

impl ReadState {
    /// A request has been sent and its answer not yet received.
    pub closed spec fn is_awaiting(&self) -> bool {
        self.awaiting
    }

    /// The bytes held in the overflow buffer, oldest first.
    pub closed spec fn buffered(&self) -> Seq<u8> {
        self.cancel_buffer@
    }

    /// The state is consistent: a request is never outstanding while bytes
    /// are buffered, since a new request is only sent once the buffer is empty.
    pub open spec fn wf(&self) -> bool {
        !(self.is_awaiting() && self.buffered().len() > 0)
    }

    /// The step that [`ReadState::next_step`] chooses.
    /// The step when polled with a buffer of `buf_len` bytes.
    pub open spec fn next_step_spec(&self, buf_len: usize) -> ReadStep {
        if self.is_awaiting() {
            ReadStep::AwaitResponse
        } else if self.buffered().len() > 0 {
            ReadStep::DrainBuffer
        } else {
            ReadStep::NewRequest { len: buf_len }
        }
    }

    /// A fresh reading half: nothing outstanding, nothing buffered.
    pub fn new() -> (r: ReadState)
        ensures
            r.wf(),
            !r.is_awaiting(),
            r.buffered() == Seq::<u8>::empty(),
    {
        ReadState { awaiting: false, cancel_buffer: VecDeque::new() }
    }

    /// Whether a request is outstanding.
    pub fn awaiting_response(&self) -> (r: bool)
        ensures
            r == self.is_awaiting(),
    {
        self.awaiting
    }

    /// Number of bytes in the overflow buffer.
    pub fn buffered_len(&self) -> (r: usize)
        ensures
            r == self.buffered().len(),
    {
        self.cancel_buffer.len()
    }

    /// Chooses what a poll of the reading half with a buffer of `buf_len`
    /// bytes does; a new request asks for exactly `buf_len` bytes.
    pub fn next_step(&self, buf_len: usize) -> (r: ReadStep)
        requires
            self.wf(),
        ensures
            r == self.next_step_spec(buf_len),
            r matches ReadStep::NewRequest { len } ==> len == buf_len,
    {
        if self.awaiting {
            ReadStep::AwaitResponse
        } else if self.cancel_buffer.len() > 0 {
            ReadStep::DrainBuffer
        } else {
            ReadStep::NewRequest { len: buf_len }
        }
    }

    /// Records that a request has been handed to the reading thread.
    pub fn request_sent(&mut self)
        requires
            old(self).wf(),
            !old(self).is_awaiting(),
            old(self).buffered().len() == 0,
        ensures
            final(self).wf(),
            final(self).is_awaiting(),
            final(self).buffered() == old(self).buffered(),
            final(self).buffered() == Seq::<u8>::empty(),
    {
        self.awaiting = true;
    }

    /// Records that the outstanding request failed: nothing is outstanding
    /// any more and nothing is buffered.
    pub fn receive_failed(&mut self)
        requires
            old(self).wf(),
            old(self).is_awaiting(),
        ensures
            final(self).wf(),
            !final(self).is_awaiting(),
            final(self).buffered() == old(self).buffered(),
            final(self).buffered() == Seq::<u8>::empty(),
    {
        self.awaiting = false;
    }

    /// Hands the answer to the outstanding request to the caller: as many
    /// bytes as fit are copied to the front of `buf`, the rest are buffered.
    /// Returns the number of bytes copied.
    pub fn receive(&mut self, data: &[u8], buf: &mut [u8]) -> (n: usize)
        requires
            old(self).wf(),
            old(self).is_awaiting(),
        ensures
            n as int == min_len(data@.len() as int, old(buf)@.len() as int),
            final(buf)@.len() == old(buf)@.len(),
            final(buf)@ == data@.take(n as int) + old(buf)@.skip(n as int),
            final(self).buffered() == data@.skip(n as int),
            !final(self).is_awaiting(),
            final(self).wf(),
            // Nothing is lost: what is handed out, followed by what is kept,
            // is what was buffered before followed by what was received.
            final(buf)@.take(n as int) + final(self).buffered() == old(self).buffered() + data@,
            (final(buf)@.take(n as int), final(self).buffered()) == read_event(
                old(self).buffered(),
                ReadEvent::Received { data: data@, capacity: old(buf)@.len() },
            ),
    {
        let n: usize = if data.len() < buf.len() {
            data.len()
        } else {
            buf.len()
        };
        let ghost old_buf = buf@;
        let mut i: usize = 0;
        while i < n
            invariant
                n <= data@.len(),
                n <= old_buf.len(),
                i <= n,
                buf@.len() == old_buf.len(),
                forall|j: int| 0 <= j < i ==> buf@[j] == data@[j],
                forall|j: int| i <= j < buf@.len() ==> buf@[j] == old_buf[j],
            decreases n - i,
        {
            buf[i] = data[i];
            i = i + 1;
        }
        let mut rest: VecDeque<u8> = VecDeque::new();
        let mut k: usize = n;
        while k < data.len()
            invariant
                n <= k <= data@.len(),
                rest@ == data@.subrange(n as int, k as int),
            decreases data@.len() - k,
        {
            rest.push_back(data[k]);
            k = k + 1;
        }
        self.cancel_buffer = rest;
        self.awaiting = false;
        assert(buf@ =~= data@.take(n as int) + old_buf.skip(n as int));
        assert(self.cancel_buffer@ =~= data@.skip(n as int));
        assert(buf@.take(n as int) + self.cancel_buffer@ =~= data@);
        n
    }

    /// Hands buffered bytes to the caller: as many as fit are copied to the
    /// front of `buf` and removed from the buffer. Returns the number copied.
    pub fn drain(&mut self, buf: &mut [u8]) -> (n: usize)
        requires
            old(self).wf(),
            !old(self).is_awaiting(),
        ensures
            n as int == min_len(old(self).buffered().len() as int, old(buf)@.len() as int),
            final(buf)@.len() == old(buf)@.len(),
            final(buf)@ == old(self).buffered().take(n as int) + old(buf)@.skip(n as int),
            final(self).buffered() == old(self).buffered().skip(n as int),
            !final(self).is_awaiting(),
            final(self).wf(),
            // Nothing is lost: what is handed out, followed by what is kept,
            // is what was buffered.
            final(buf)@.take(n as int) + final(self).buffered() == old(self).buffered(),
            (final(buf)@.take(n as int), final(self).buffered()) == read_event(
                old(self).buffered(),
                ReadEvent::Drained { capacity: old(buf)@.len() },
            ),
    {
        let n: usize = if self.cancel_buffer.len() < buf.len() {
            self.cancel_buffer.len()
        } else {
            buf.len()
        };
        let ghost old_buf = buf@;
        let ghost old_data = self.cancel_buffer@;
        let mut i: usize = 0;
        while i < n
            invariant
                n <= self.cancel_buffer@.len(),
                n <= old_buf.len(),
                self.cancel_buffer@ == old_data,
                i <= n,
                buf@.len() == old_buf.len(),
                forall|j: int| 0 <= j < i ==> buf@[j] == old_data[j],
                forall|j: int| i <= j < buf@.len() ==> buf@[j] == old_buf[j],
            decreases n - i,
        {
            buf[i] = self.cancel_buffer[i];
            i = i + 1;
        }
        let mut rest: VecDeque<u8> = VecDeque::new();
        let mut k: usize = n;
        while k < self.cancel_buffer.len()
            invariant
                n <= k <= old_data.len(),
                self.cancel_buffer@ == old_data,
                rest@ == old_data.subrange(n as int, k as int),
            decreases old_data.len() - k,
        {
            rest.push_back(self.cancel_buffer[k]);
            k = k + 1;
        }
        self.cancel_buffer = rest;
        assert(buf@ =~= old_data.take(n as int) + old_buf.skip(n as int));
        assert(self.cancel_buffer@ =~= old_data.skip(n as int));
        assert(buf@.take(n as int) + self.cancel_buffer@ =~= old_data);
        n
    }
}

/// Checks the byte count that a blocking read of the reading thread returned
/// for a request of `requested` bytes: a negative count is an error, carried
/// as the count itself; otherwise the count is the number of bytes received.
/// A stream never returns more bytes than it was asked for, which the
/// precondition states.
pub fn checked_read_len(requested: usize, received: i32) -> (r: Result<usize, i32>)
    requires
        received < 0 || received as int <= requested as int,
    ensures
        received < 0 ==> r == Err::<usize, i32>(received),
        received >= 0 ==> r == Ok::<usize, i32>(received as usize),
{
    if received < 0 {
        Err(received)
    } else {
        Ok(received as usize)
    }
}

/// What the writing half has to do next when it is polled.
#[derive(Debug, Clone, Copy, PartialEq, Eq, Structural)]
pub enum WriteStep {
    /// A write is outstanding: poll for its answer.
    AwaitResponse,
    /// Nothing is outstanding: send the caller's buffer to the writing thread.
    NewRequest,
}

/// How the answer to an outstanding write relates to the current poll.
#[derive(Debug, Clone, Copy, PartialEq, Eq, Structural)]
pub enum WriteCompletion {
    /// The answer is for the buffer being written now; the poll completes
    /// with this many bytes written.
    Matches(usize),
    /// The answer is for a different, earlier buffer (its poll was
    /// abandoned); the current buffer still has to be sent.
    Stale,
}

/// State of the writing half of a channel.
#[derive(Debug)]
pub struct WriteState {
    awaiting: bool,
}

/// How an answer that reports `received_len` bytes with hash `received_hash`
/// relates to a poll that writes `buf_len` bytes with hash `buf_hash`.
pub open spec fn write_completion_spec(
    received_len: usize,
    received_hash: u64,
    buf_len: usize,
    buf_hash: u64,
) -> WriteCompletion {
    if received_len == buf_len && received_hash == buf_hash {
        WriteCompletion::Matches(received_len)
    } else {
        WriteCompletion::Stale
    }
}

impl WriteState {
    /// A write has been sent and its answer not yet received.
    pub closed spec fn is_awaiting(&self) -> bool {
        self.awaiting
    }

    /// A fresh writing half: nothing outstanding.
    pub fn new() -> (r: WriteState)
        ensures
            !r.is_awaiting(),
    {
        WriteState { awaiting: false }
    }

    /// Chooses what a poll of the writing half does.
    pub fn next_step(&self) -> (r: WriteStep)
        ensures
            r == (if self.is_awaiting() {
                WriteStep::AwaitResponse
            } else {
                WriteStep::NewRequest
            }),
    {
        if self.awaiting {
            WriteStep::AwaitResponse
        } else {
            WriteStep::NewRequest
        }
    }

    /// Makes the request for writing the caller's buffer: a copy of its bytes
    /// and their hash, which the answer to the request carries back. From then
    /// on the write is outstanding.
    pub fn request_sent(&mut self, buf: &[u8]) -> (r: (Vec<u8>, u64))
        requires
            !old(self).is_awaiting(),
        ensures
            final(self).is_awaiting(),
            r.0@ == buf@,
            r.1 == data_hash(buf@),
    {
        let data = copy_bytes(buf);
        let hash = hash_data(buf);
        self.awaiting = true;
        (data, hash)
    }

    /// Takes in the answer to the outstanding write, which reports
    /// `received_len` bytes written with hash `received_hash`. The poll only
    /// completes when the answer is for the very buffer that is being written
    /// (same length and same hash); otherwise it is an answer to an abandoned
    /// write.
    pub fn complete(&mut self, received_len: usize, received_hash: u64, buf: &[u8]) -> (r:
        WriteCompletion)
        requires
            old(self).is_awaiting(),
        ensures
            !final(self).is_awaiting(),
            r == write_completion_spec(received_len, received_hash, buf@.len() as usize, data_hash(buf@)),
            r matches WriteCompletion::Matches(n) ==> n == buf@.len() && received_hash == data_hash(
                buf@,
            ),
    {
        self.awaiting = false;
        let buf_hash = hash_data(buf);
        if received_len == buf.len() && received_hash == buf_hash {
            WriteCompletion::Matches(received_len)
        } else {
            WriteCompletion::Stale
        }
    }
}

/// What a poll of the reading half does, for every buffer length: with a
/// request outstanding it waits for the answer; with no request outstanding
/// and bytes buffered it hands those out, whatever the size of the buffer
/// (so no buffered byte is ever passed over for a new request); only with
/// nothing outstanding and nothing buffered does it send a request, for
/// exactly the buffer's length.
pub proof fn read_step_choice(state: ReadState, buf_len: usize)
    ensures
        state.is_awaiting() ==> state.next_step_spec(buf_len) == ReadStep::AwaitResponse,
        !state.is_awaiting() && state.buffered().len() > 0 ==> state.next_step_spec(buf_len)
            == ReadStep::DrainBuffer,
        !state.is_awaiting() && state.buffered().len() == 0 ==> state.next_step_spec(buf_len)
            == (ReadStep::NewRequest { len: buf_len }),
        state.next_step_spec(buf_len) is NewRequest ==> state.buffered().len() == 0,
{
}

/// How an answer of the writing thread is matched with the buffer being
/// written, for every length: an answer with the buffer's length and hash
/// completes the write with that length; any other answer is stale.
pub proof fn write_completion_choice(
    received_len: usize,
    received_hash: u64,
    buf_len: usize,
    buf_hash: u64,
)
    ensures
        received_len == buf_len && received_hash == buf_hash ==> write_completion_spec(
            received_len,
            received_hash,
            buf_len,
            buf_hash,
        ) == WriteCompletion::Matches(buf_len),
        !(received_len == buf_len && received_hash == buf_hash) ==> write_completion_spec(
            received_len,
            received_hash,
            buf_len,
            buf_hash,
        ) == WriteCompletion::Stale,
{
}

} // verus!
