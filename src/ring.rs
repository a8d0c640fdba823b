//! A pipe over a lock-free single-producer/single-consumer ring buffer.
//!
//! Each end holds its half of the ring, the shared close flag and the event
//! that wakes its peer. One attempt at a write or a read is decided here; the
//! caller suspends on its own event whenever an attempt is `Pending`, and
//! re-arms that listener before it attempts again.
use std::sync::atomic::{AtomicBool, Ordering};
use std::sync::Arc;
use rtrb::{Consumer as RingConsumer, Producer as RingProducer};
use vstd::prelude::*;

use crate::model::PipeError;

verus! {

#[verifier::external_type_specification]
#[verifier::external_body]
#[verifier::reject_recursive_types(T)]
pub struct ExRingProducer<T>(RingProducer<T>);

#[verifier::external_type_specification]
#[verifier::external_body]
#[verifier::reject_recursive_types(T)]
pub struct ExRingConsumer<T>(RingConsumer<T>);

#[verifier::external_type_specification]
#[verifier::external_body]
pub struct ExEvent(event_listener::Event);

/// Relies on event_listener's `Event::notify`: wakes up to `n` listeners.
pub assume_specification[ event_listener::Event::notify ](event: &event_listener::Event, n: usize);

/// The number of slots of the ring buffer that a writing half belongs to.
pub uninterp spec fn ring_capacity(p: RingProducer<u8>) -> nat;

/// The number of slots of the ring buffer that a reading half belongs to.
pub uninterp spec fn ring_consumer_capacity(c: RingConsumer<u8>) -> nat;

/// Relies on rtrb's `RingBuffer::new`: the two halves of a fresh ring buffer
/// with `capacity` slots (the buffer stores the argument as its capacity).
#[verifier::external_body]
fn ring_buffer(capacity: usize) -> (r: (RingProducer<u8>, RingConsumer<u8>))
    ensures
        ring_capacity(r.0) == capacity as nat,
        ring_consumer_capacity(r.1) == capacity as nat,
{
    rtrb::RingBuffer::new(capacity)
}

/// Relies on rtrb's `std::io::Write for Producer<u8>`: with some free slot it
/// copies a non-empty prefix of `buf` in (nothing for an empty `buf`); it fails,
/// with `WouldBlock`, only for a non-empty `buf` when no slot is free.
#[verifier::external_body]
fn ring_write(queue: &mut RingProducer<u8>, buf: &[u8]) -> (r: Option<usize>)
    ensures
        r matches Some(n) ==> n <= buf@.len() && (buf@.len() > 0 ==> n > 0),
        r is None ==> buf@.len() > 0,
        ring_capacity(*final(queue)) == ring_capacity(*old(queue)),
{
    std::io::Write::write(queue, buf).ok()
}

/// Relies on rtrb's `std::io::Read for Consumer<u8>`: with some byte available
/// it moves a non-empty run of them into the front of `buf` (nothing for an
/// empty `buf`) and leaves the rest of `buf` as it was; it fails, with
/// `WouldBlock`, only for a non-empty `buf` when no byte is available.
#[verifier::external_body]
fn ring_read(queue: &mut RingConsumer<u8>, buf: &mut [u8]) -> (r: Option<usize>)
    ensures
        final(buf)@.len() == old(buf)@.len(),
        r matches Some(n) ==> n <= old(buf)@.len() && (old(buf)@.len() > 0 ==> n > 0)
            && final(buf)@.skip(n as int) == old(buf)@.skip(n as int),
        r is None ==> old(buf)@.len() > 0 && final(buf)@ == old(buf)@,
        ring_consumer_capacity(*final(queue)) == ring_consumer_capacity(*old(queue)),
{
    std::io::Read::read(queue, buf).ok()
}

/// The outcome of one attempt at a blocking operation.
#[derive(Debug, Clone, Copy)]
pub enum Step {
    /// The operation finished with this result.
    Ready(Result<usize, PipeError>),
    /// Nothing could be done: wait for the peer's notification, then retry.
    Pending,
}

/// Decides a write attempt from the close flag, read before writing, and the
/// ring buffer's answer (`None` when the ring was full or was not tried).
pub fn write_step(closed: bool, pushed: Option<usize>) -> (r: Step)
    ensures
        closed ==> r == Step::Ready(Err(PipeError::BrokenPipe)),
        !closed ==> match pushed {
            Some(n) => r == Step::Ready(Ok(n)),
            None => r == Step::Pending,
        },
{
    if closed {
        Step::Ready(Err(PipeError::BrokenPipe))
    } else {
        match pushed {
            Some(n) => Step::Ready(Ok(n)),
            None => Step::Pending,
        }
    }
}

/// Decides a read attempt from the close flag, read before reading, and the
/// ring buffer's answer. Bytes read always win; an empty read after the writer
/// had closed is end of stream, since every byte written before the close was
/// visible to that read.
pub fn read_step(closed: bool, popped: Option<usize>) -> (r: Step)
    ensures
        r == (if popped is Some && popped->0 > 0 {
            Step::Ready(Ok(popped->0))
        } else if closed {
            Step::Ready(Ok(0))
        } else {
            Step::Pending
        }),
{
    match popped {
        Some(n) if n > 0 => Step::Ready(Ok(n)),
        _ => if closed {
            Step::Ready(Ok(0))
        } else {
            Step::Pending
        },
    }
}

/// Writing half of a ring-buffer pipe.
pub struct RingWriter {
    queue: RingProducer<u8>,
    has_closed: bool,
    signal_reader: Arc<event_listener::Event>,
    closed: Arc<AtomicBool>,
}

/// Reading half of a ring-buffer pipe.
pub struct RingReader {
    queue: RingConsumer<u8>,
    signal_writer: Arc<event_listener::Event>,
    closed: Arc<AtomicBool>,
}

/// Creates an open ring-buffer pipe with `capacity` slots. The writer notifies
/// `read_ready` after each write and on close; the reader notifies
/// `write_ready` after each read that freed space.
pub fn ring_pipe(
    capacity: usize,
    write_ready: Arc<event_listener::Event>,
    read_ready: Arc<event_listener::Event>,
) -> (r: (RingWriter, RingReader))
    requires
        capacity > 0,
    ensures
        r.0.capacity() == capacity,
        r.1.capacity() == capacity,
        !r.0.is_closed(),
{
    let (send, recv) = ring_buffer(capacity);
    let closed = Arc::new(AtomicBool::new(false));
    let writer = RingWriter {
        queue: send,
        has_closed: false,
        signal_reader: read_ready,
        closed: closed.clone(),
    };
    (writer, RingReader { queue: recv, signal_writer: write_ready, closed })
}

impl RingWriter {
    /// The number of slots of the ring.
    pub closed spec fn capacity(&self) -> nat {
        ring_capacity(self.queue)
    }

    /// Whether this writer has closed the pipe.
    pub closed spec fn is_closed(&self) -> bool {
        self.has_closed
    }

    /// The writing half of the ring, which holds the backlog.
    pub closed spec fn ring(&self) -> RingProducer<u8> {
        self.queue
    }

    /// One write attempt: `BrokenPipe` once closed (nothing is written then);
    /// otherwise a non-empty prefix of `buf` is written and the reader is
    /// notified, or, with the ring full, `Pending`. A write never closes,
    /// reopens or resizes the pipe.
    pub fn try_write(&mut self, buf: &[u8]) -> (r: Step)
        ensures
            r matches Step::Ready(Ok(n)) ==> n <= buf@.len() && (buf@.len() > 0 ==> n > 0),
            r matches Step::Ready(Err(e)) ==> e == PipeError::BrokenPipe,
            r is Pending ==> buf@.len() > 0,
            old(self).is_closed() ==> (r matches Step::Ready(Err(PipeError::BrokenPipe))),
            old(self).is_closed() ==> final(self).ring() == old(self).ring(),
            final(self).is_closed() == old(self).is_closed(),
            final(self).capacity() == old(self).capacity(),
    {
        let closed = self.has_closed || self.closed.load(Ordering::SeqCst);
        let pushed = if closed { None } else { ring_write(&mut self.queue, buf) };
        let r = write_step(closed, pushed);
        match r {
            Step::Ready(Ok(_)) => self.signal_reader.notify(1),
            _ => {},
        }
        r
    }

    /// Closes the pipe and wakes the reader so that it observes the close.
    /// The flag is set once and stays set, so closing again changes nothing;
    /// the backlog is left in the ring for the reader to drain. Dropping the
    /// writer must call this too.
    pub fn close(&mut self)
        ensures
            final(self).is_closed(),
            final(self).ring() == old(self).ring(),
            final(self).capacity() == old(self).capacity(),
    {
        self.has_closed = true;
        self.closed.store(true, Ordering::SeqCst);
        self.signal_reader.notify(1);
    }
}

impl RingReader {
    /// The number of slots of the ring.
    pub closed spec fn capacity(&self) -> nat {
        ring_consumer_capacity(self.queue)
    }

    /// One read attempt: the bytes read, with the writer notified; `Ok(0)` at
    /// end of stream; or, with nothing to read on an open pipe, `Pending`.
    pub fn try_read(&mut self, buf: &mut [u8]) -> (r: Step)
        ensures
            final(buf)@.len() == old(buf)@.len(),
            r matches Step::Ready(Ok(n)) ==> n <= old(buf)@.len()
                && final(buf)@.skip(n as int) == old(buf)@.skip(n as int),
            !(r matches Step::Ready(Err(_))),
            final(self).capacity() == old(self).capacity(),
    {
        let closed = self.closed.load(Ordering::SeqCst);
        let popped = ring_read(&mut self.queue, buf);
        let r = read_step(closed, popped);
        match r {
            Step::Ready(Ok(n)) => if n > 0 {
                self.signal_writer.notify(1);
            },
            _ => {},
        }
        r
    }
}

} // verus!
