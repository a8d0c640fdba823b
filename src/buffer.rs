//! A pipe over a lock-protected bounded byte buffer: the writer and the reader
//! share one `Transport` behind a lock whose invariant is the capacity bound.
use std::sync::Arc;
use vstd::prelude::*;
use vstd::rwlock::{RwLock, RwLockPredicate};

use crate::model::{PipeError, PipeModel};
use crate::transport::{count_of, delivered, Transport};

verus! {

/// The lock invariant: the shared buffer is well formed and keeps its limit.
pub ghost struct BufferInv {
    pub limit: nat,
}

impl RwLockPredicate<Transport> for BufferInv {
    open spec fn inv(self, v: Transport) -> bool {
        &&& v@.wf()
        &&& v@.limit == self.limit
    }
}

/// Creates a pipe holding at most `limit` bytes.
pub fn new(limit: usize) -> (r: (Producer, Consumer))
    requires
        limit > 0,
    ensures
        r.0.limit() == limit,
        r.1.limit() == limit,
        !r.0.is_closed(),
{
    let lock = RwLock::new(Transport::new(limit), Ghost(BufferInv { limit: limit as nat }));
    let inner = Arc::new(lock);
    let producer = Producer { inner: inner.clone(), has_closed: false };
    (producer, Consumer { inner })
}

/// Writing end of a buffered pipe.
pub struct Producer {
    inner: Arc<RwLock<Transport, BufferInv>>,
    has_closed: bool,
}

/// Reading end of a buffered pipe.
pub struct Consumer {
    inner: Arc<RwLock<Transport, BufferInv>>,
}

impl Producer {
    #[verifier::type_invariant]
    spec fn limit_positive(&self) -> bool {
        self.inner.pred().limit > 0
    }

    /// The capacity this pipe was created with.
    pub closed spec fn limit(&self) -> nat {
        self.inner.pred().limit
    }

    /// Whether this writer has closed the pipe.
    pub closed spec fn is_closed(&self) -> bool {
        self.has_closed
    }

    /// Writes as much of `buf` as fits right now; `Ok(0)` when the pipe is full,
    /// `BrokenPipe` once it was closed. The outcome is that of a model write on
    /// the state the reader left the buffer in.
    pub fn write(&mut self, buf: &[u8]) -> (r: Result<usize, PipeError>)
        ensures
            exists|s: PipeModel| #![auto]
                s.wf() && s.limit == old(self).limit() && count_of(r) == s.write(buf@).1,
            old(self).is_closed() ==> r == Err::<usize, PipeError>(PipeError::BrokenPipe),
            final(self).limit() == old(self).limit(),
            final(self).is_closed() == old(self).is_closed(),
    {
        proof {
            use_type_invariant(&*self);
        }
        if self.has_closed {
            proof {
                let s = PipeModel { contents: Seq::empty(), limit: self.limit(), closed: true };
                let e = Err::<usize, PipeError>(PipeError::BrokenPipe);
                assert(s.wf() && s.limit == self.limit() && count_of(e) == s.write(buf@).1);
            }
            return Err(PipeError::BrokenPipe);
        }
        let (mut t, handle) = self.inner.acquire_write();
        let r = t.write(buf);
        handle.release_write(t);
        r
    }

    /// Nothing is held back: always succeeds.
    pub fn flush(&mut self) -> (r: Result<(), PipeError>)
        ensures
            r is Ok,
    {
        Ok(())
    }

    /// Closes the pipe: later writes fail with `BrokenPipe`, and the reader
    /// drains the backlog and then sees end of stream. The flag is set once
    /// and stays set, so closing again changes nothing.
    pub fn close(&mut self)
        ensures
            final(self).is_closed(),
            final(self).limit() == old(self).limit(),
    {
        let (mut t, handle) = self.inner.acquire_write();
        t.close();
        handle.release_write(t);
        self.has_closed = true;
    }
}

impl Consumer {
    /// The capacity this pipe was created with.
    pub closed spec fn limit(&self) -> nat {
        self.inner.pred().limit
    }

    /// Moves the oldest buffered bytes into `buf`. `WouldBlock` while the pipe is
    /// empty and open; `Ok(0)` at end of stream. The outcome is that of a model
    /// read on the state the writer left the buffer in.
    pub fn read(&mut self, buf: &mut [u8]) -> (r: Result<usize, PipeError>)
        ensures
            exists|s: PipeModel| #![auto]
                s.wf() && s.limit == old(self).limit() && delivered(r, final(buf)@) == s.read(old(buf)@.len() as nat).1,
            final(buf)@.len() == old(buf)@.len(),
            final(self).limit() == old(self).limit(),
    {
        let (mut t, handle) = self.inner.acquire_write();
        let r = t.read(buf);
        handle.release_write(t);
        r
    }
}

} // verus!
