//! The adapter: standard input and output as pollable byte streams.

use crate::error::{new_pipe_broken_error, new_would_block_error, StdioError};
use crate::ring::{Closed, Readiness, RingBuffer, RingState};
use vstd::prelude::*;

verus! {

/// The abstract state of the adapter: one ring buffer per direction.
pub struct StdioState {
    /// Bytes on their way from standard input to the caller.
    pub stdin: RingState,
    /// Bytes on their way from the caller to standard output.
    pub stdout: RingState,
}

impl StdioState {
    /// Whether a read into `room` bytes may be asked for: unless it fails,
    /// at least one byte must be able to move, so an empty destination is
    /// admitted only while nothing is buffered.
    pub open spec fn accepts_read(self, room: nat) -> bool {
        self.stdin.readable() ==> self.stdin.admits_read(room)
    }

    /// Whether a write of `len` bytes may be asked for: unless it fails, at
    /// least one byte must be able to move, so an empty source is admitted
    /// only while the write would fail.
    pub open spec fn accepts_write(self, len: nat) -> bool {
        self.stdout.writable() ==> self.stdout.admits_write(len)
    }

    /// What a read into `room` bytes returns: `WouldBlock` while the input
    /// direction is not ready, `BrokenPipe` once its producer is gone and
    /// nothing is left, else the number of bytes moved.
    pub open spec fn read_result(self, room: nat) -> Result<usize, StdioError> {
        if !self.stdin.readable() {
            Err(StdioError::WouldBlock)
        } else if self.stdin.read_fails() {
            Err(StdioError::BrokenPipe)
        } else {
            Ok(self.stdin.delivered(room) as usize)
        }
    }

    /// What a write of `len` bytes returns: `WouldBlock` while the output
    /// direction is not ready, `BrokenPipe` once its consumer is gone, else
    /// the number of bytes moved.
    pub open spec fn write_result(self, len: nat) -> Result<usize, StdioError> {
        if !self.stdout.writable() {
            Err(StdioError::WouldBlock)
        } else if self.stdout.write_fails() {
            Err(StdioError::BrokenPipe)
        } else {
            Ok(self.stdout.accepted(len) as usize)
        }
    }
}

/// Standard input and output behind a non-blocking, readiness-based surface.
pub struct Stdio {
    stdin_buffer: RingBuffer,
    stdout_buffer: RingBuffer,
}

impl View for Stdio {
    type V = StdioState;

    closed spec fn view(&self) -> StdioState {
        StdioState { stdin: self.stdin_buffer@, stdout: self.stdout_buffer@ }
    }
}

impl Stdio {
    /// The representation invariant: both buffers are well formed.
    pub closed spec fn wf(&self) -> bool {
        &&& self.stdin_buffer.wf()
        &&& self.stdout_buffer.wf()
    }

    /// Creates the adapter state with an empty buffer per direction. Both
    /// sizes must be positive.
    pub fn new(stdin_buffer_size: usize, stdout_buffer_size: usize) -> (stdio: Stdio)
        requires
            stdin_buffer_size > 0,
            stdout_buffer_size > 0,
        ensures
            stdio.wf(),
            stdio@.stdin == RingState::fresh(stdin_buffer_size as nat),
            stdio@.stdout == RingState::fresh(stdout_buffer_size as nat),
    {
        Stdio {
            stdin_buffer: RingBuffer::create(stdin_buffer_size),
            stdout_buffer: RingBuffer::create(stdout_buffer_size),
        }
    }

    /// The buffer of the input direction, for the pump that fills it.
    pub fn stdin_buffer(&mut self) -> (ring: &mut RingBuffer)
        requires
            old(self).wf(),
        ensures
            ring.wf(),
            ring@ == old(self)@.stdin,
            final(ring).wf() ==> final(self).wf(),
            final(self)@ == (StdioState { stdin: final(ring)@, ..old(self)@ }),
    {
        &mut self.stdin_buffer
    }

    /// The buffer of the output direction, for the pump that drains it.
    pub fn stdout_buffer(&mut self) -> (ring: &mut RingBuffer)
        requires
            old(self).wf(),
        ensures
            ring.wf(),
            ring@ == old(self)@.stdout,
            final(ring).wf() ==> final(self).wf(),
            final(self)@ == (StdioState { stdout: final(ring)@, ..old(self)@ }),
    {
        &mut self.stdout_buffer
    }

    /// Whether a read can make progress: `Ready` exactly if the input
    /// direction holds a byte or its producer is gone.
    pub fn poll_read(&self) -> (readiness: Readiness)
        requires
            self.wf(),
        ensures
            readiness == Readiness::Ready <==> self@.stdin.readable(),
    {
        self.stdin_buffer.poll_read()
    }

    /// Whether a write can make progress: `Ready` exactly if the output
    /// direction has room or its consumer is gone.
    pub fn poll_write(&self) -> (readiness: Readiness)
        requires
            self.wf(),
        ensures
            readiness == Readiness::Ready <==> self@.stdout.writable(),
    {
        self.stdout_buffer.poll_write()
    }

    /// Whether `read` may be called with a destination of `room` bytes.
    pub fn accepts_read(&self, room: usize) -> (accepted: bool)
        requires
            self.wf(),
        ensures
            accepted == self@.accepts_read(room as nat),
    {
        room > 0 || self.stdin_buffer.occupied() == 0
    }

    /// Whether `write` may be called with a source of `len` bytes.
    pub fn accepts_write(&self, len: usize) -> (accepted: bool)
        requires
            self.wf(),
        ensures
            accepted == self@.accepts_write(len as nat),
    {
        len > 0 || !self.stdout_buffer.consumer_live() || self.stdout_buffer.free() == 0
    }

    /// Reads buffered input into the front of `buf` without waiting.
    ///
    /// Fails with `WouldBlock` exactly if the input direction is not ready,
    /// and with `BrokenPipe` exactly if its producer is gone and nothing is
    /// left to drain; either failure changes nothing. Otherwise the oldest
    /// bytes, as many as `buf` can take and at least one, leave the buffer.
    /// An empty `buf` is admitted only while no byte is buffered.
    pub fn read(&mut self, buf: &mut [u8]) -> (result: Result<usize, StdioError>)
        requires
            old(self).wf(),
            old(self)@.accepts_read(old(buf)@.len()),
        ensures
            final(self).wf(),
            final(self)@.stdout == old(self)@.stdout,
            result == old(self)@.read_result(old(buf)@.len()),
            result is Err ==> final(self)@ == old(self)@ && final(buf)@ == old(buf)@,
            result matches Ok(n) ==> {
                &&& n >= 1
                &&& final(self)@.stdin == old(self)@.stdin.after_read(old(buf)@.len())
                &&& final(buf)@ == old(self)@.stdin.read_bytes(old(buf)@.len()) + old(buf)@.skip(
                    n as int,
                )
            },
    {
        match self.stdin_buffer.poll_read() {
            Readiness::NotReady => {
                return Err(new_would_block_error());
            },
            Readiness::Ready => {},
        }
        match self.stdin_buffer.read(buf) {
            Ok(bytes_read) => Ok(bytes_read),
            Err(Closed) => Err(new_pipe_broken_error()),
        }
    }

    /// Queues bytes of `buf` for output without waiting.
    ///
    /// Fails with `WouldBlock` exactly if the output direction is not ready,
    /// and with `BrokenPipe` exactly if its consumer is gone; either failure
    /// changes nothing. Otherwise the longest prefix of `buf` that fits, at
    /// least one byte, joins the buffer. An empty `buf` is admitted only
    /// while the call would fail.
    pub fn write(&mut self, buf: &[u8]) -> (result: Result<usize, StdioError>)
        requires
            old(self).wf(),
            old(self)@.accepts_write(buf@.len()),
        ensures
            final(self).wf(),
            final(self)@.stdin == old(self)@.stdin,
            result == old(self)@.write_result(buf@.len()),
            result is Err ==> final(self)@ == old(self)@,
            result matches Ok(n) ==> {
                &&& n >= 1
                &&& final(self)@.stdout == old(self)@.stdout.after_write(buf@)
            },
    {
        match self.stdout_buffer.poll_write() {
            Readiness::NotReady => {
                return Err(new_would_block_error());
            },
            Readiness::Ready => {},
        }
        match self.stdout_buffer.write(buf) {
            Ok(bytes_written) => Ok(bytes_written),
            Err(Closed) => {
                proof {
                    let ring = old(self)@.stdout;
                    assert(ring.queue + ring.written_bytes(buf@) =~= ring.queue);
                }
                Err(new_pipe_broken_error())
            },
        }
    }

    /// Does nothing and succeeds: flushing is the business of the pump that
    /// drains the output direction.
    pub fn flush(&mut self) -> (result: Result<(), StdioError>)
        ensures
            result is Ok,
            *final(self) == *old(self),
    {
        Ok(())
    }

    /// Gives up the adapter's two sides: the consumer side of the input
    /// direction and the producer side of the output direction.
    pub fn close(&mut self)
        requires
            old(self).wf(),
        ensures
            final(self).wf(),
            final(self)@.stdin == old(self)@.stdin.consumer_dropped(),
            final(self)@.stdout == old(self)@.stdout.producer_dropped(),
    {
        self.stdin_buffer.drop_consumer();
        self.stdout_buffer.drop_producer();
    }
}

/// What a readiness query says decides between waiting and moving: a
/// transfer in a direction that is not ready answers `WouldBlock`, never a
/// count, and a transfer in a direction that is ready never answers
/// `WouldBlock`.
pub proof fn lemma_not_ready_would_block(state: StdioState, room: nat, len: nat)
    ensures
        !state.stdin.readable() <==> state.read_result(room) == Err::<usize, StdioError>(
            StdioError::WouldBlock,
        ),
        !state.stdout.writable() <==> state.write_result(len) == Err::<usize, StdioError>(
            StdioError::WouldBlock,
        ),
{
}

} // verus!
