//! The decisions of one connection's read and write loops.
//!
//! The caller performs each read or write and reports what it gave; these
//! types say whether to go on.
use vstd::prelude::*;
use crate::bytes::append;

verus! {

/// Largest number of request bytes read from one connection.
pub const BUFFER_SIZE: usize = 8192;

/// The bytes read so far from a connection, bounded by a capacity.
pub struct RequestBuffer {
    data: Vec<u8>,
    capacity: usize,
}

pub struct RequestBufferView {
    pub data: Seq<u8>,
    pub capacity: nat,
}

impl View for RequestBuffer {
    type V = RequestBufferView;

    closed spec fn view(&self) -> RequestBufferView {
        RequestBufferView { data: self.data@, capacity: self.capacity as nat }
    }
}

impl RequestBuffer {
    /// The buffer holds no more than its capacity.
    pub open spec fn wf(&self) -> bool {
        self@.data.len() <= self@.capacity
    }

    /// An empty buffer that takes at most `capacity` bytes.
    pub fn new(capacity: usize) -> (r: RequestBuffer)
        ensures
            r.wf(),
            r@.data == Seq::<u8>::empty(),
            r@.capacity == capacity,
    {
        RequestBuffer { data: Vec::new(), capacity }
    }

    /// How many more bytes the buffer takes.
    pub fn remaining(&self) -> (r: usize)
        requires
            self.wf(),
        ensures
            r == self@.capacity - self@.data.len(),
    {
        self.capacity - self.data.len()
    }

    /// Records the bytes that one read gave, and returns whether to read
    /// again: not after a read that gave nothing (the peer is done), nor once
    /// the buffer is full.
    pub fn receive(&mut self, chunk: &[u8]) -> (more: bool)
        requires
            old(self).wf(),
            chunk@.len() <= old(self)@.capacity - old(self)@.data.len(),
        ensures
            final(self).wf(),
            final(self)@.data == old(self)@.data + chunk@,
            final(self)@.capacity == old(self)@.capacity,
            more == (chunk@.len() > 0 && final(self)@.data.len() < final(self)@.capacity),
    {
        append(&mut self.data, chunk);
        chunk.len() > 0 && self.data.len() < self.capacity
    }

    /// The bytes read so far.
    pub fn bytes(&self) -> (r: &[u8])
        ensures
            r@ == self@.data,
    {
        self.data.as_slice()
    }
}

/// How far the writing of a response of `total` bytes has come.
pub struct WriteProgress {
    written: usize,
    total: usize,
    stopped: bool,
}

pub struct WriteProgressView {
    pub written: nat,
    pub total: nat,
    pub stopped: bool,
}

impl View for WriteProgress {
    type V = WriteProgressView;

    closed spec fn view(&self) -> WriteProgressView {
        WriteProgressView {
            written: self.written as nat,
            total: self.total as nat,
            stopped: self.stopped,
        }
    }
}

/// The outcome of one write.
pub enum WriteOutcome {
    /// The write took this many bytes.
    Wrote(usize),
    /// The write failed.
    Failed,
}

/// Whether writing goes on: bytes are left and no write failed or made no progress.
pub open spec fn write_pending(v: WriteProgressView) -> bool {
    !v.stopped && v.written < v.total
}

impl WriteProgress {
    #[verifier::type_invariant]
    spec fn within_total(&self) -> bool {
        self.written <= self.total
    }

    /// Nothing written yet of a response of `total` bytes.
    pub fn new(total: usize) -> (r: WriteProgress)
        ensures
            r@ == (WriteProgressView { written: 0, total: total as nat, stopped: false }),
    {
        WriteProgress { written: 0, total, stopped: false }
    }

    /// How many bytes were written.
    pub fn written(&self) -> (r: usize)
        ensures
            r == self@.written,
            self@.written <= self@.total,
    {
        proof {
            use_type_invariant(self);
        }
        self.written
    }

    /// Returns whether to write again.
    pub fn pending(&self) -> (r: bool)
        ensures
            r == write_pending(self@),
    {
        !self.stopped && self.written < self.total
    }

    /// Records the outcome of one write of the bytes from `written()` on. A
    /// write that failed or took nothing ends the writing, with the rest unsent.
    pub fn record(&mut self, outcome: WriteOutcome) -> (more: bool)
        requires
            write_pending(old(self)@),
            outcome matches WriteOutcome::Wrote(n) ==> n <= old(self)@.total - old(self)@.written,
        ensures
            final(self)@.total == old(self)@.total,
            match outcome {
                WriteOutcome::Wrote(n) => if n == 0 {
                    final(self)@ == (WriteProgressView { stopped: true, ..old(self)@ })
                } else {
                    final(self)@ == (WriteProgressView { written: (old(self)@.written + n) as nat, ..old(self)@ })
                },
                WriteOutcome::Failed => final(self)@ == (WriteProgressView {
                    stopped: true,
                    ..old(self)@
                }),
            },
            more == write_pending(final(self)@),
    {
        match outcome {
            WriteOutcome::Wrote(n) => {
                if n == 0 {
                    self.stopped = true;
                } else {
                    self.written = self.written + n;
                }
            },
            WriteOutcome::Failed => {
                self.stopped = true;
            },
        }
        self.pending()
    }
}

} // verus!
