//! A pipe over a bounded queue of byte chunks. Each non-empty write is one
//! chunk, so the capacity counts chunks, not bytes: a chunk of any size takes
//! one slot. The reader keeps a cursor into the chunk it is draining and takes
//! the next chunk only once that one is exhausted.
use concurrent_queue::{ConcurrentQueue, PopError, PushError};
use std::sync::Arc;
use vstd::math::min;
use vstd::prelude::*;

use crate::model::PipeError;

verus! {

#[verifier::external_type_specification]
#[verifier::external_body]
#[verifier::reject_recursive_types(T)]
pub struct ExConcurrentQueue<T>(ConcurrentQueue<T>);

/// What the shared queue answered to a push.
pub enum Pushed {
    Done,
    Full,
    Closed,
}

/// What the shared queue answered to a pop.
pub enum Popped {
    Chunk(Vec<u8>),
    Empty,
    Closed,
}

/// The number of slots a queue was created with.
pub uninterp spec fn chunk_capacity(q: ConcurrentQueue<Vec<u8>>) -> nat;

/// Relies on concurrent_queue's `ConcurrentQueue::bounded`, which panics on a
/// zero capacity: an open, empty queue of `capacity` slots.
#[verifier::external_body]
fn chunk_queue(capacity: usize) -> (r: ConcurrentQueue<Vec<u8>>)
    requires
        capacity > 0,
    ensures
        chunk_capacity(r) == capacity as nat,
{
    ConcurrentQueue::bounded(capacity)
}

/// Relies on concurrent_queue's `ConcurrentQueue::push`, given a copy of `chunk`.
#[verifier::external_body]
fn chunk_push(queue: &ConcurrentQueue<Vec<u8>>, chunk: &[u8]) -> (r: Pushed) {
    match queue.push(chunk.to_vec()) {
        Ok(()) => Pushed::Done,
        Err(PushError::Full(_)) => Pushed::Full,
        Err(PushError::Closed(_)) => Pushed::Closed,
    }
}

/// Relies on concurrent_queue's `ConcurrentQueue::pop`.
#[verifier::external_body]
fn chunk_pop(queue: &ConcurrentQueue<Vec<u8>>) -> (r: Popped) {
    match queue.pop() {
        Ok(chunk) => Popped::Chunk(chunk),
        Err(PopError::Empty) => Popped::Empty,
        Err(PopError::Closed) => Popped::Closed,
    }
}

/// Relies on concurrent_queue's `ConcurrentQueue::close`, which for the
/// queues `bounded` makes (single-slot or bounded) is one atomic `fetch_or`
/// and so cannot panic.
#[verifier::external_body]
fn chunk_close(queue: &ConcurrentQueue<Vec<u8>>)
    opens_invariants none
    no_unwind
{
    queue.close();
}

/// Creates a chunk pipe holding at most `capacity` chunks.
pub fn new_queue(capacity: usize) -> (r: (ByteProducer, ByteConsumer))
    requires
        capacity > 0,
    ensures
        r.0.capacity() == capacity,
        r.1.capacity() == capacity,
        r.1.pending().len() == 0,
{
    let inner = Arc::new(chunk_queue(capacity));
    let send = ByteProducer { inner: inner.clone() };
    let recv = ByteConsumer { inner, buffer: Vec::new(), pos: 0 };
    (send, recv)
}

/// Sending side of a chunk pipe.
pub struct ByteProducer {
    inner: Arc<ConcurrentQueue<Vec<u8>>>,
}

/// Reading side of a chunk pipe.
pub struct ByteConsumer {
    inner: Arc<ConcurrentQueue<Vec<u8>>>,
    buffer: Vec<u8>,
    pos: usize,
}

/// The result of a write, given the queue's answer to its push.
pub open spec fn write_result(len: nat, pushed: Pushed) -> Result<usize, PipeError> {
    match pushed {
        Pushed::Done => Ok(len as usize),
        Pushed::Full => Err(PipeError::WouldBlock),
        Pushed::Closed => Err(PipeError::BrokenPipe),
    }
}

/// Maps the queue's answer to a push of `len > 0` bytes.
pub fn push_result(len: usize, pushed: Pushed) -> (r: Result<usize, PipeError>)
    ensures
        r == write_result(len as nat, pushed),
{
    match pushed {
        Pushed::Done => Ok(len),
        Pushed::Full => Err(PipeError::WouldBlock),
        Pushed::Closed => Err(PipeError::BrokenPipe),
    }
}

impl ByteProducer {
    /// The number of chunks the pipe holds at most.
    pub closed spec fn capacity(&self) -> nat {
        chunk_capacity(*self.inner)
    }

    /// Writes `buf` whole as one chunk. An empty `buf` is accepted without
    /// using a slot. `WouldBlock` when every slot is taken, `BrokenPipe` once
    /// the pipe was closed; no byte is written then.
    pub fn write(&mut self, buf: &[u8]) -> (r: Result<usize, PipeError>)
        ensures
            buf@.len() == 0 ==> r == Ok::<usize, PipeError>(0),
            r matches Ok(n) ==> n == buf@.len(),
            final(self).capacity() == old(self).capacity(),
    {
        if buf.len() == 0 {
            return Ok(0);
        }
        let pushed = chunk_push(&self.inner, buf);
        push_result(buf.len(), pushed)
    }

    /// Nothing is held back: always succeeds.
    pub fn flush(&mut self) -> (r: Result<(), PipeError>)
        ensures
            r is Ok,
    {
        Ok(())
    }

    /// Closes the pipe: later writes fail with `BrokenPipe`; the reader drains
    /// what was queued and then sees end of stream.
    pub fn close(&self)
        opens_invariants none
        no_unwind
    {
        chunk_close(&self.inner);
    }
}

impl Drop for ByteProducer {
    /// Dropping the writer closes the pipe, exactly as `close` does.
    fn drop(&mut self)
        opens_invariants none
        no_unwind
    {
        self.close();
    }
}

impl ByteConsumer {
    #[verifier::type_invariant]
    spec fn cursor_in_bounds(&self) -> bool {
        self.pos <= self.buffer@.len()
    }

    /// The number of chunks the pipe holds at most.
    pub closed spec fn capacity(&self) -> nat {
        chunk_capacity(*self.inner)
    }

    /// The unread rest of the chunk being drained.
    pub closed spec fn pending(&self) -> Seq<u8> {
        self.buffer@.skip(self.pos as int)
    }

    /// Copies from the current chunk as many bytes as fit into `out`.
    fn drain_cursor(&mut self, out: &mut [u8]) -> (n: usize)
        ensures
            n as nat == min(old(self).pending().len() as int, old(out)@.len() as int),
            final(out)@.len() == old(out)@.len(),
            final(out)@.take(n as int) == old(self).pending().take(n as int),
            final(out)@.skip(n as int) == old(out)@.skip(n as int),
            final(self).pending() == old(self).pending().skip(n as int),
            final(self).inner == old(self).inner,
    {
        proof {
            use_type_invariant(&*self);
        }
        let len: usize = self.buffer.len();
        let avail: usize = len - self.pos;
        let n: usize = if out.len() <= avail { out.len() } else { avail };
        let ghost start = self.pending();
        let ghost orig = out@;
        let mut i: usize = 0;
        while i < n
            invariant
                n <= out@.len(),
                n <= start.len(),
                i <= n,
                len == self.buffer@.len(),
                self.pos + n <= len,
                start == self.buffer@.skip(self.pos as int),
                out@.len() == orig.len(),
                forall|k: int| 0 <= k < i ==> out@[k] == start[k],
                forall|k: int| i <= k < out@.len() ==> out@[k] == orig[k],
            decreases n - i,
        {
            out[i] = self.buffer[self.pos + i];
            i = i + 1;
        }
        assert(out@.take(n as int) =~= start.take(n as int));
        assert(out@.skip(n as int) =~= orig.skip(n as int));
        self.pos = self.pos + n;
        assert(self.buffer@.skip(self.pos as int) =~= start.skip(n as int));
        n
    }

    /// Reads from the chunk being drained; once it is exhausted, takes the
    /// next chunk from the queue. `WouldBlock` when nothing is queued, `Ok(0)`
    /// once the pipe was closed and drained.
    pub fn read(&mut self, buf: &mut [u8]) -> (r: Result<usize, PipeError>)
        ensures
            final(buf)@.len() == old(buf)@.len(),
            old(self).pending().len() > 0 ==> ({
                let n = min(old(self).pending().len() as int, old(buf)@.len() as int);
                &&& r matches Ok(k) && k == n
                &&& final(buf)@.take(n) == old(self).pending().take(n)
                &&& final(buf)@.skip(n) == old(buf)@.skip(n)
                &&& final(self).pending() == old(self).pending().skip(n)
            }),
            r matches Ok(n) ==> n <= old(buf)@.len()
                && final(buf)@.skip(n as int) == old(buf)@.skip(n as int),
            r matches Err(e) ==> e == PipeError::WouldBlock && final(buf)@ == old(buf)@
                && final(self).pending() == old(self).pending(),
            final(self).capacity() == old(self).capacity(),
    {
        proof {
            use_type_invariant(&*self);
        }
        if self.pos < self.buffer.len() {
            return Ok(self.drain_cursor(buf));
        }
        let popped = chunk_pop(&self.inner);
        self.take_chunk(popped, buf)
    }

    /// Continues a read whose current chunk is exhausted, given what the queue
    /// answered: a new chunk is drained into `buf`; an empty queue would block;
    /// a closed, empty queue is end of stream.
    pub fn take_chunk(&mut self, popped: Popped, buf: &mut [u8]) -> (r: Result<usize, PipeError>)
        requires
            old(self).pending().len() == 0,
        ensures
            final(buf)@.len() == old(buf)@.len(),
            final(self).capacity() == old(self).capacity(),
            match popped {
                Popped::Chunk(c) => {
                    let n = min(c@.len() as int, old(buf)@.len() as int);
                    &&& r matches Ok(k) && k == n
                    &&& final(buf)@.take(n) == c@.take(n)
                    &&& final(buf)@.skip(n) == old(buf)@.skip(n)
                    &&& final(self).pending() == c@.skip(n)
                },
                Popped::Empty => {
                    &&& r == Err::<usize, PipeError>(PipeError::WouldBlock)
                    &&& final(buf)@ == old(buf)@
                    &&& final(self).pending() == old(self).pending()
                },
                Popped::Closed => {
                    &&& r == Ok::<usize, PipeError>(0)
                    &&& final(buf)@ == old(buf)@
                    &&& final(self).pending() == old(self).pending()
                },
            },
    {
        match popped {
            Popped::Chunk(c) => {
                self.pos = 0;
                self.buffer = c;
                proof {
                    assert(self.buffer@.skip(0) =~= self.buffer@);
                }
                Ok(self.drain_cursor(buf))
            },
            Popped::Empty => Err(PipeError::WouldBlock),
            Popped::Closed => Ok(0),
        }
    }
}

} // verus!
