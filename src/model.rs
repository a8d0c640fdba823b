//! The mathematical model of a bounded pipe: what it holds, what a write,
//! a read and a close do to it, and the laws that hold of every run.
use vstd::prelude::*;

verus! {

/// Why a pipe operation did not move any bytes.
#[derive(Debug, Clone, Copy, PartialEq, Eq, Structural)]
pub enum PipeError {
    /// The pipe was closed: no more bytes are accepted.
    BrokenPipe,
    /// Nothing can be done now; retry once the peer has made progress.
    WouldBlock,
}

/// The abstract state of a pipe.
pub ghost struct PipeModel {
    /// The bytes written and not yet read, oldest first.
    pub contents: Seq<u8>,
    /// The most bytes the pipe may hold at once.
    pub limit: nat,
    /// Set once the writer has closed; never cleared.
    pub closed: bool,
}

/// One operation on a pipe, as issued by its writer or its reader.
pub ghost enum PipeOp {
    Write(Seq<u8>),
    Read(nat),
    Close,
}

impl PipeModel {
    /// A usable pipe has room for at least one byte and never holds more than its limit.
    pub open spec fn wf(self) -> bool {
        &&& 0 < self.limit
        &&& self.contents.len() <= self.limit
    }

    /// A fresh, empty, open pipe.
    pub open spec fn empty(limit: nat) -> PipeModel {
        PipeModel { contents: Seq::empty(), limit, closed: false }
    }

    /// Free space left in the pipe.
    pub open spec fn room(self) -> nat {
        if self.contents.len() <= self.limit {
            (self.limit - self.contents.len()) as nat
        } else {
            0
        }
    }

    /// How many of `wanted` bytes a write accepts: as many as fit.
    pub open spec fn accepted(self, wanted: nat) -> nat {
        if wanted <= self.room() {
            wanted
        } else {
            self.room()
        }
    }

    /// A write: refused once closed, otherwise it appends the longest prefix of
    /// `data` that fits and reports its length (zero when the pipe is full).
    pub open spec fn write(self, data: Seq<u8>) -> (PipeModel, Result<nat, PipeError>) {
        if self.closed {
            (self, Err(PipeError::BrokenPipe))
        } else {
            let k = self.accepted(data.len());
            (PipeModel { contents: self.contents + data.take(k as int), ..self }, Ok(k))
        }
    }

    /// How many bytes a read into a buffer of `room` bytes takes out.
    pub open spec fn taken(self, room: nat) -> nat {
        if room <= self.contents.len() {
            room
        } else {
            self.contents.len()
        }
    }

    /// A read into a buffer of `room` bytes: when the pipe is empty and open it
    /// would block; otherwise it removes and returns the oldest bytes, as many
    /// as are buffered and fit (none at end of stream).
    pub open spec fn read(self, room: nat) -> (PipeModel, Result<Seq<u8>, PipeError>) {
        if self.contents.len() == 0 && !self.closed {
            (self, Err(PipeError::WouldBlock))
        } else {
            let k = self.taken(room);
            (
                PipeModel { contents: self.contents.skip(k as int), ..self },
                Ok(self.contents.take(k as int)),
            )
        }
    }

    /// Closing sets the flag and keeps the backlog readable.
    pub open spec fn close(self) -> PipeModel {
        PipeModel { closed: true, ..self }
    }

    /// One operation: the new state, the bytes it delivered to the reader and
    /// the bytes it accepted from the writer.
    pub open spec fn step(self, op: PipeOp) -> (PipeModel, Seq<u8>, Seq<u8>) {
        match op {
            PipeOp::Write(data) => {
                let (s, r) = self.write(data);
                match r {
                    Ok(k) => (s, Seq::empty(), data.take(k as int)),
                    Err(_) => (s, Seq::empty(), Seq::empty()),
                }
            },
            PipeOp::Read(room) => {
                let (s, r) = self.read(room);
                match r {
                    Ok(bytes) => (s, bytes, Seq::empty()),
                    Err(_) => (s, Seq::empty(), Seq::empty()),
                }
            },
            PipeOp::Close => (self.close(), Seq::empty(), Seq::empty()),
        }
    }

    /// A run of operations: the final state, every byte delivered to the reader
    /// in order, and every byte accepted from the writer in order.
    pub open spec fn run(self, ops: Seq<PipeOp>) -> (PipeModel, Seq<u8>, Seq<u8>)
        decreases ops.len(),
    {
        if ops.len() == 0 {
            (self, Seq::empty(), Seq::empty())
        } else {
            let (s, delivered, accepted) = self.run(ops.drop_last());
            let (t, d, a) = s.step(ops.last());
            (t, delivered + d, accepted + a)
        }
    }
}

/// `count` reads, each into a buffer of `room` bytes.
pub open spec fn reads(room: nat, count: nat) -> Seq<PipeOp> {
    Seq::new(count, |i: int| PipeOp::Read(room))
}

/// One operation keeps the pipe well formed, keeps its limit and its close
/// flag, and every byte it delivers was buffered or accepted before it.
proof fn lemma_step(s: PipeModel, op: PipeOp)
    requires
        s.wf(),
    ensures
        ({
            let (t, d, a) = s.step(op);
            &&& d + t.contents == s.contents + a
            &&& t.wf()
            &&& t.limit == s.limit
            &&& s.closed ==> t.closed
            &&& s.closed ==> a.len() == 0
        }),
{
    match op {
        PipeOp::Write(data) => {
            let k = s.accepted(data.len());
            assert(Seq::<u8>::empty() + (s.contents + data.take(k as int)) =~= s.contents + data.take(k as int));
            assert(Seq::<u8>::empty() + s.contents =~= s.contents + Seq::<u8>::empty());
        },
        PipeOp::Read(room) => {
            let k = s.taken(room);
            assert(s.contents.take(k as int) + s.contents.skip(k as int) =~= s.contents + Seq::<u8>::empty());
            assert(Seq::<u8>::empty() + s.contents =~= s.contents + Seq::<u8>::empty());
        },
        PipeOp::Close => {
            assert(Seq::<u8>::empty() + s.contents =~= s.contents + Seq::<u8>::empty());
        },
    }
}

/// No corruption, total order: whatever the interleaving of writes, reads and
/// closes, the bytes delivered to the reader followed by those still buffered
/// are exactly the bytes the pipe held at the start followed by every byte the
/// writes accepted, in order. From an empty pipe, the reader therefore sees a
/// prefix of the concatenation of the accepted writes, however reads are sized.
pub proof fn lemma_no_corruption(m: PipeModel, ops: Seq<PipeOp>)
    requires
        m.wf(),
    ensures
        ({
            let (s, delivered, accepted) = m.run(ops);
            &&& delivered + s.contents == m.contents + accepted
            &&& s.limit == m.limit
            &&& m.closed ==> s.closed
        }),
    decreases ops.len(),
{
    lemma_capacity(m, ops);
    if ops.len() > 0 {
        lemma_no_corruption(m, ops.drop_last());
        lemma_capacity(m, ops.drop_last());
        let (s, dl, ac) = m.run(ops.drop_last());
        lemma_step(s, ops.last());
        let (t, d, a) = s.step(ops.last());
        assert((dl + d) + t.contents =~= dl + (d + t.contents));
        assert((m.contents + ac) + a =~= m.contents + (ac + a));
        assert(dl + (s.contents + a) =~= (dl + s.contents) + a);
    }
}

/// Capacity: every run from a well-formed pipe ends well formed, so the
/// buffered byte count never exceeds the configured limit.
pub proof fn lemma_capacity(m: PipeModel, ops: Seq<PipeOp>)
    requires
        m.wf(),
    ensures
        m.run(ops).0.wf(),
        m.run(ops).0.limit == m.limit,
        m.run(ops).0.contents.len() <= m.limit,
    decreases ops.len(),
{
    if ops.len() > 0 {
        lemma_capacity(m, ops.drop_last());
        lemma_step(m.run(ops.drop_last()).0, ops.last());
    }
}

/// Post-close rejection: once a pipe is closed, no write of any later run is
/// accepted, not even in part, and the pipe stays closed.
pub proof fn lemma_closed_rejects_writes(m: PipeModel, ops: Seq<PipeOp>)
    requires
        m.wf(),
        m.closed,
    ensures
        m.run(ops).2.len() == 0,
        m.run(ops).0.closed,
        forall|data: Seq<u8>| m.write(data) == (m, Err::<nat, PipeError>(PipeError::BrokenPipe)),
    decreases ops.len(),
{
    if ops.len() > 0 {
        lemma_closed_rejects_writes(m, ops.drop_last());
        lemma_capacity(m, ops.drop_last());
        lemma_step(m.run(ops.drop_last()).0, ops.last());
    }
}

/// After `count` reads of a closed pipe, at most `len - count` bytes remain
/// and nothing was accepted.
proof fn lemma_reads_drain(m: PipeModel, room: nat, count: nat)
    requires
        m.wf(),
        m.closed,
        room > 0,
    ensures
        ({
            let (s, d, a) = m.run(reads(room, count));
            &&& s.closed
            &&& a.len() == 0
            &&& s.contents.len() == 0 || s.contents.len() + count <= m.contents.len()
        }),
    decreases count,
{
    lemma_closed_rejects_writes(m, reads(room, count));
    if count > 0 {
        let prev = (count - 1) as nat;
        assert(reads(room, count).drop_last() =~= reads(room, prev));
        lemma_reads_drain(m, room, prev);
        lemma_capacity(m, reads(room, prev));
    }
}

/// End of stream: once a pipe holding `N` bytes is closed, a reader that
/// reads repeatedly with a non-empty buffer receives exactly those `N` bytes,
/// in order, within `N` reads, and its next read reports end of stream
/// (`Ok` with no bytes) instead of blocking.
pub proof fn lemma_eof_termination(m: PipeModel, room: nat)
    requires
        m.wf(),
        m.closed,
        room > 0,
    ensures
        ({
            let (s, delivered, _) = m.run(reads(room, m.contents.len()));
            &&& delivered == m.contents
            &&& delivered.len() == m.contents.len()
            &&& s.contents.len() == 0
            &&& s.read(room) == (s, Ok::<Seq<u8>, PipeError>(Seq::empty()))
        }),
{
    let ops = reads(room, m.contents.len());
    lemma_reads_drain(m, room, m.contents.len());
    lemma_no_corruption(m, ops);
    let (s, d, a) = m.run(ops);
    assert(d + s.contents =~= d);
    assert(m.contents + a =~= m.contents);
    assert(s.contents.skip(0) =~= s.contents);
    assert(s.contents.take(0) =~= Seq::<u8>::empty());
}

} // verus!
