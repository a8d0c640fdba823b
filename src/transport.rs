//! The bounded byte buffer that backs a pipe: a FIFO of bytes with a fixed
//! limit and a close flag, implementing `PipeModel` exactly.
use std::collections::VecDeque;
use vstd::prelude::*;

use crate::model::{PipeError, PipeModel};

verus! {

/// A bounded FIFO of bytes with a close flag.
pub struct Transport {
    buf: VecDeque<u8>,
    limit: usize,
    closed: bool,
}

/// Relies on std's `VecDeque::capacity`: how many bytes the deque holds
/// room for without reallocating.
#[verifier::external_body]
fn deque_capacity(buf: &VecDeque<u8>) -> (r: usize) {
    buf.capacity()
}

/// Relies on std's `VecDeque::shrink_to_fit`: releases spare room and keeps
/// the contents as they are.
#[verifier::external_body]
fn deque_shrink(buf: &mut VecDeque<u8>)
    ensures
        final(buf)@ == old(buf)@,
{
    buf.shrink_to_fit()
}

/// A byte count result, seen as a natural number.
pub open spec fn count_of(r: Result<usize, PipeError>) -> Result<nat, PipeError> {
    match r {
        Ok(n) => Ok(n as nat),
        Err(e) => Err(e),
    }
}

/// What a read returned, given the buffer it filled: the bytes it delivered.
pub open spec fn delivered(r: Result<usize, PipeError>, out: Seq<u8>) -> Result<Seq<u8>, PipeError> {
    match r {
        Ok(n) => Ok(out.take(n as int)),
        Err(e) => Err(e),
    }
}

impl View for Transport {
    type V = PipeModel;

    closed spec fn view(&self) -> PipeModel {
        PipeModel { contents: self.buf@, limit: self.limit as nat, closed: self.closed }
    }
}

impl Transport {
    /// An empty, open buffer holding at most `limit` bytes.
    pub fn new(limit: usize) -> (r: Transport)
        requires
            limit > 0,
        ensures
            r@ == PipeModel::empty(limit as nat),
            r@.wf(),
    {
        Transport { buf: VecDeque::new(), limit, closed: false }
    }

    /// Number of bytes buffered.
    pub fn len(&self) -> (r: usize)
        ensures
            r == self@.contents.len(),
    {
        self.buf.len()
    }

    /// The configured limit.
    pub fn limit(&self) -> (r: usize)
        ensures
            r == self@.limit,
    {
        self.limit
    }

    /// Whether the buffer was closed.
    pub fn is_closed(&self) -> (r: bool)
        ensures
            r == self@.closed,
    {
        self.closed
    }

    /// Appends as much of `data` as fits; refused once closed.
    pub fn write(&mut self, data: &[u8]) -> (r: Result<usize, PipeError>)
        requires
            old(self)@.wf(),
        ensures
            (final(self)@, count_of(r)) == old(self)@.write(data@),
            final(self)@.wf(),
    {
        if self.closed {
            return Err(PipeError::BrokenPipe);
        }
        let room: usize = self.limit - self.buf.len();
        let n: usize = if data.len() <= room { data.len() } else { room };
        let mut i: usize = 0;
        while i < n
            invariant
                n <= data@.len(),
                i <= n,
                n == old(self)@.accepted(data@.len() as nat),
                self.limit == old(self).limit,
                self.closed == old(self).closed,
                self.buf@ == old(self)@.contents + data@.take(i as int),
            decreases n - i,
        {
            self.buf.push_back(data[i]);
            i = i + 1;
            assert(data@.take(i as int) == data@.take(i - 1) + seq![data@[i - 1]]);
        }
        Ok(n)
    }

    /// Gives back storage when the allocation has grown far beyond what is
    /// buffered (more than four times the contents plus a small slack), so
    /// that a burst does not pin memory; leaves the contents as they are.
    fn compact(&mut self)
        ensures
            final(self)@ == old(self)@,
    {
        let used: usize = self.buf.len();
        if used <= (usize::MAX - 16) / 4 && deque_capacity(&self.buf) > used * 4 + 16 {
            deque_shrink(&mut self.buf);
        }
    }

    /// Moves the oldest bytes into `out`, as many as are buffered and fit.
    /// Empty and open: `WouldBlock`. Empty and closed: `Ok(0)`, end of stream.
    pub fn read(&mut self, out: &mut [u8]) -> (r: Result<usize, PipeError>)
        requires
            old(self)@.wf(),
        ensures
            (final(self)@, delivered(r, final(out)@)) == old(self)@.read(old(out)@.len() as nat),
            final(out)@.len() == old(out)@.len(),
            r matches Ok(n) ==> n == old(self)@.taken(old(out)@.len() as nat)
                && final(out)@.skip(n as int) == old(out)@.skip(n as int),
            r is Err ==> final(out)@ == old(out)@,
            final(self)@.wf(),
    {
        self.compact();
        if !self.closed && self.buf.len() == 0 {
            return Err(PipeError::WouldBlock);
        }
        let n: usize = if out.len() <= self.buf.len() { out.len() } else { self.buf.len() };
        let ghost start = self.buf@;
        let mut i: usize = 0;
        while i < n
            invariant
                n <= out@.len(),
                n <= start.len(),
                n == old(self)@.taken(old(out)@.len() as nat),
                i <= n,
                out@.len() == old(out)@.len(),
                out@.take(i as int) == start.take(i as int),
                out@.skip(n as int) == old(out)@.skip(n as int),
                self.buf@ == start.skip(i as int),
                self.limit == old(self).limit,
                self.closed == old(self).closed,
                start == old(self)@.contents,
            decreases n - i,
        {
            let b = self.buf.pop_front();
            match b {
                Some(x) => {
                    out[i] = x;
                },
                None => {},
            }
            i = i + 1;
            assert(out@.take(i as int) =~= start.take(i as int));
            assert(out@.skip(n as int) =~= old(out)@.skip(n as int));
            assert(self.buf@ =~= start.skip(i as int));
        }
        Ok(n)
    }

    /// Marks the buffer closed; buffered bytes stay readable.
    pub fn close(&mut self)
        ensures
            final(self)@ == old(self)@.close(),
    {
        self.closed = true;
    }
}

} // verus!
