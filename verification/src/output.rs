//! The buffered output channel: batches the many small per-cell escape
//! sequences into one device write per frame, and decides how a flush
//! proceeds from the outcome of each device write.
//!
//! The device write itself is I/O and happens outside the library; the
//! channel owns the buffer and the flush policy: retry after an
//! interrupted write, fail when the device reports zero progress on a
//! non-empty buffer, fail when the device reports an error, and drop
//! exactly the bytes the device took.

use vstd::prelude::*;

verus! {

/// Why a flush failed.
#[derive(Clone, Copy, PartialEq, Eq, Structural, Debug)]
pub enum WriteError {
    /// The device reported zero progress on a non-empty buffer.
    WriteZero,
    /// The device reported an error other than an interrupted call.
    Device,
}

/// What one device write of the channel's pending bytes reported.
#[derive(Clone, Copy, PartialEq, Eq, Structural, Debug)]
pub enum WriteOutcome {
    /// The device took the first `n` pending bytes.
    Wrote(usize),
    /// The call was interrupted before writing anything; retry.
    Interrupted,
    /// The device failed.
    Failed,
}

/// What the flush loop should do next.
#[derive(Clone, Copy, PartialEq, Eq, Structural, Debug)]
pub enum FlushControl {
    /// Pending bytes remain: write again.
    Continue,
    /// The buffer is drained: the flush succeeded.
    Done,
    /// The flush failed; undrained bytes stay pending.
    Fatal(WriteError),
}

/// The buffered writer over the TTY's write side.
pub struct OutputChannel {
    buf: Vec<u8>,
}

impl OutputChannel {
    /// The bytes buffered and not yet taken by the device.
    pub closed spec fn contents(&self) -> Seq<u8> {
        self.buf@
    }

    /// An empty channel.
    pub fn new() -> (r: OutputChannel)
        ensures
            r.contents() == Seq::<u8>::empty(),
    {
        OutputChannel { buf: Vec::new() }
    }

    /// Appends bytes to the buffer. Never blocks: nothing reaches the
    /// device until a flush.
    pub fn write(&mut self, bytes: &[u8])
        ensures
            final(self).contents() == old(self).contents() + bytes@,
    {
        let mut i: usize = 0;
        while i < bytes.len()
            invariant
                i <= bytes@.len(),
                self.contents() == old(self).contents() + bytes@.take(i as int),
            decreases bytes@.len() - i,
        {
            self.buf.push(bytes[i]);
            proof {
                assert(old(self).contents() + bytes@.take(i as int + 1) =~= (old(self).contents()
                    + bytes@.take(i as int)).push(bytes@[i as int]));
            }
            i = i + 1;
        }
        proof {
            assert(bytes@.take(bytes@.len() as int) =~= bytes@);
        }
    }

    /// The number of pending bytes.
    pub fn len(&self) -> (r: usize)
        ensures
            r == self.contents().len(),
    {
        self.buf.len()
    }

    /// True when nothing is pending.
    pub fn is_empty(&self) -> (r: bool)
        ensures
            r == (self.contents().len() == 0),
    {
        self.buf.len() == 0
    }

    /// Borrows the pending bytes, first-to-write first.
    pub fn pending(&self) -> (r: &Vec<u8>)
        ensures
            r@ == self.contents(),
    {
        &self.buf
    }

    /// Hands the pending bytes out and leaves the channel empty.
    pub fn take(&mut self) -> (r: Vec<u8>)
        ensures
            r@ == old(self).contents(),
            final(self).contents() == Seq::<u8>::empty(),
    {
        let mut out = Vec::new();
        core::mem::swap(&mut out, &mut self.buf);
        out
    }

    /// Records the outcome of one device write of the pending bytes and
    /// decides how the flush proceeds.
    ///
    /// Bytes the device took leave the buffer; an interrupted call is
    /// retried; zero progress on a non-empty buffer and a device error
    /// end the flush with the undrained bytes still pending.
    pub fn on_write(&mut self, outcome: WriteOutcome) -> (r: FlushControl)
        requires
            outcome matches WriteOutcome::Wrote(n) ==> n <= old(self).contents().len(),
        ensures
            match outcome {
                WriteOutcome::Wrote(n) => {
                    if n == 0 && old(self).contents().len() > 0 {
                        &&& r == FlushControl::Fatal(WriteError::WriteZero)
                        &&& final(self).contents() == old(self).contents()
                    } else {
                        &&& final(self).contents() == old(self).contents().skip(n as int)
                        &&& r == (if final(self).contents().len() == 0 {
                            FlushControl::Done
                        } else {
                            FlushControl::Continue
                        })
                    }
                },
                WriteOutcome::Interrupted => {
                    &&& final(self).contents() == old(self).contents()
                    &&& r == (if old(self).contents().len() == 0 {
                        FlushControl::Done
                    } else {
                        FlushControl::Continue
                    })
                },
                WriteOutcome::Failed => {
                    &&& final(self).contents() == old(self).contents()
                    &&& r == FlushControl::Fatal(WriteError::Device)
                },
            },
    {
        match outcome {
            WriteOutcome::Wrote(n) => {
                if n == 0 && self.buf.len() > 0 {
                    FlushControl::Fatal(WriteError::WriteZero)
                } else {
                    let rest = self.buf.split_off(n);
                    self.buf = rest;
                    if self.buf.len() == 0 {
                        FlushControl::Done
                    } else {
                        FlushControl::Continue
                    }
                }
            },
            WriteOutcome::Interrupted => {
                if self.buf.len() == 0 {
                    FlushControl::Done
                } else {
                    FlushControl::Continue
                }
            },
            WriteOutcome::Failed => FlushControl::Fatal(WriteError::Device),
        }
    }
}

} // verus!
