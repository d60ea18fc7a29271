//! The two pumps, as state machines.
//!
//! A pump moves bytes between a blocking stream of the operating system and
//! a ring buffer. Talking to the operating system and sleeping are the
//! driver's business; what to do next is decided here. The driver starts
//! with the action of the new pump, performs each action that the pump asks
//! for and reports back what happened:
//!
//! * [`StdinPump`]: `ReadInput` asks for one blocking read of at most
//!   [`SCRATCH_SIZE`] bytes, answered with [`StdinPump::on_input`] or
//!   [`StdinPump::on_input_error`]; `AwaitCapacity` asks for
//!   [`StdinPump::on_capacity`], again after each change of the buffer for
//!   as long as the answer stays the same.
//! * [`StdoutPump`]: `AwaitData` asks for [`StdoutPump::on_data`], again
//!   after each change of the buffer for as long as the answer stays the
//!   same; `WriteOutput` asks to write all of [`StdoutPump::chunk`],
//!   answered with [`StdoutPump::on_written`]; `Flush` asks to flush the
//!   stream, answered with [`StdoutPump::on_flushed`].
//!
//! `Exit` ends the driver. A pump that stops gives up its side of the buffer
//! first. An event that the current phase does not expect changes nothing.

use crate::ring::{Readiness, RingBuffer, RingState};
use vstd::prelude::*;
use vstd::slice::slice_subrange;

verus! {

/// The size of the scratch area that a pump moves bytes through.
pub const SCRATCH_SIZE: usize = 1024;

/// Where the input pump stands.
#[derive(Clone, Copy, Debug, PartialEq, Eq, Structural)]
pub enum StdinPhase {
    /// Waiting for the operating system to hand over input.
    Reading,
    /// Holding input that did not fit into the buffer yet.
    Delivering,
    /// Finished.
    Stopped,
}

/// What the input pump asks its driver to do next.
#[derive(Clone, Copy, Debug, PartialEq, Eq, Structural)]
pub enum StdinAction {
    /// Read from standard input, blocking until something arrives.
    ReadInput,
    /// Try to deliver the held input, sleeping while the buffer is full.
    AwaitCapacity,
    /// End the thread.
    Exit,
}

/// The abstract state of the input pump.
pub struct StdinPumpState {
    /// Where the pump stands.
    pub phase: StdinPhase,
    /// The input read and not yet written to the buffer, oldest first.
    pub pending: Seq<u8>,
}

impl StdinPumpState {
    /// Input is held exactly while delivering.
    pub open spec fn wf(self) -> bool {
        self.phase == StdinPhase::Delivering <==> self.pending.len() > 0
    }

    /// A pump that has not read anything yet.
    pub open spec fn initial() -> StdinPumpState {
        StdinPumpState { phase: StdinPhase::Reading, pending: Seq::empty() }
    }

    /// The stopped pump.
    pub open spec fn stopped() -> StdinPumpState {
        StdinPumpState { phase: StdinPhase::Stopped, pending: Seq::empty() }
    }

    /// What the driver is to do in this state.
    pub open spec fn action(self) -> StdinAction {
        match self.phase {
            StdinPhase::Reading => StdinAction::ReadInput,
            StdinPhase::Delivering => StdinAction::AwaitCapacity,
            StdinPhase::Stopped => StdinAction::Exit,
        }
    }

    /// One attempt to write `pending` to the buffer, as a blocking write of
    /// all of it proceeds: the pump stops if the consumer is gone; else the
    /// bytes that fit join the buffer, and the pump goes back to reading
    /// once none is left.
    pub open spec fn deliver(pending: Seq<u8>, ring: RingState) -> (StdinPumpState, RingState) {
        if ring.write_fails() {
            (StdinPumpState::stopped(), ring.producer_dropped())
        } else {
            let rest = pending.skip(ring.accepted(pending.len()) as int);
            let phase = if rest.len() == 0 {
                StdinPhase::Reading
            } else {
                StdinPhase::Delivering
            };
            (StdinPumpState { phase, pending: rest }, ring.after_write(pending))
        }
    }

    /// The step for a finished read that gave `data`. No bytes mean that
    /// standard input has ended.
    pub open spec fn on_input(self, ring: RingState, data: Seq<u8>) -> (StdinPumpState, RingState) {
        if self.phase != StdinPhase::Reading {
            (self, ring)
        } else if data.len() == 0 {
            (StdinPumpState::stopped(), ring.producer_dropped())
        } else {
            StdinPumpState::deliver(data, ring)
        }
    }

    /// The step for a failed read.
    pub open spec fn on_input_error(self, ring: RingState) -> (StdinPumpState, RingState) {
        if self.phase != StdinPhase::Reading {
            (self, ring)
        } else {
            (StdinPumpState::stopped(), ring.producer_dropped())
        }
    }

    /// The step that tries to deliver the held input.
    pub open spec fn on_capacity(self, ring: RingState) -> (StdinPumpState, RingState) {
        if self.phase != StdinPhase::Delivering {
            (self, ring)
        } else {
            StdinPumpState::deliver(self.pending, ring)
        }
    }
}

/// The pump that carries standard input into a ring buffer.
pub struct StdinPump {
    phase: StdinPhase,
    chunk: Vec<u8>,
    sent: usize,
}

impl View for StdinPump {
    type V = StdinPumpState;

    closed spec fn view(&self) -> StdinPumpState {
        StdinPumpState { phase: self.phase, pending: self.chunk@.skip(self.sent as int) }
    }
}

impl StdinPump {
    /// The representation invariant.
    pub closed spec fn wf(&self) -> bool {
        &&& self.sent <= self.chunk@.len()
        &&& self@.wf()
    }

    /// A well-formed pump has a well-formed abstract state.
    pub proof fn lemma_wf_view(&self)
        requires
            self.wf(),
        ensures
            self@.wf(),
    {
    }

    /// Creates a pump that is about to read.
    pub fn new() -> (pump: StdinPump)
        ensures
            pump.wf(),
            pump@ == StdinPumpState::initial(),
    {
        let pump = StdinPump { phase: StdinPhase::Reading, chunk: Vec::new(), sent: 0 };
        assert(pump@.pending =~= Seq::<u8>::empty());
        pump
    }

    /// Where the pump stands.
    pub fn phase(&self) -> (phase: StdinPhase)
        ensures
            phase == self@.phase,
    {
        self.phase
    }

    /// What the driver is to do next.
    pub fn action(&self) -> (action: StdinAction)
        ensures
            action == self@.action(),
    {
        match self.phase {
            StdinPhase::Reading => StdinAction::ReadInput,
            StdinPhase::Delivering => StdinAction::AwaitCapacity,
            StdinPhase::Stopped => StdinAction::Exit,
        }
    }

    /// Stops the pump and gives up the producer side of the buffer.
    fn stop(&mut self, ring: &mut RingBuffer) -> (action: StdinAction)
        requires
            old(ring).wf(),
        ensures
            final(self).wf(),
            final(ring).wf(),
            final(self)@ == StdinPumpState::stopped(),
            final(ring)@ == old(ring)@.producer_dropped(),
            action == StdinAction::Exit,
    {
        self.phase = StdinPhase::Stopped;
        self.chunk.clear();
        self.sent = 0;
        ring.drop_producer();
        assert(self@.pending =~= Seq::<u8>::empty());
        StdinAction::Exit
    }

    /// Makes one attempt to write the held input to the buffer.
    fn deliver(&mut self, ring: &mut RingBuffer) -> (action: StdinAction)
        requires
            old(self).sent < old(self).chunk@.len(),
            old(ring).wf(),
        ensures
            final(self).wf(),
            final(ring).wf(),
            (final(self)@, final(ring)@) == StdinPumpState::deliver(old(self)@.pending, old(ring)@),
            action == final(self)@.action(),
    {
        proof {
            ring.lemma_wf_view();
        }
        let ghost pending = self@.pending;
        let ghost before = ring@;
        if !ring.consumer_live() {
            return self.stop(ring);
        }
        if ring.free() == 0 {
            self.phase = StdinPhase::Delivering;
            assert(pending.skip(0) =~= pending);
            assert(before.queue + before.written_bytes(pending) =~= before.queue);
            return StdinAction::AwaitCapacity;
        }
        let length: usize = self.chunk.len();
        let rest: &[u8] = slice_subrange(self.chunk.as_slice(), self.sent, length);
        assert(rest@ =~= pending);
        match ring.write(rest) {
            Ok(count) => {
                self.sent = self.sent + count;
                assert(self.chunk@.skip(self.sent as int) =~= pending.skip(count as int));
                if self.sent == length {
                    self.phase = StdinPhase::Reading;
                    StdinAction::ReadInput
                } else {
                    self.phase = StdinPhase::Delivering;
                    StdinAction::AwaitCapacity
                }
            },
            Err(_) => self.stop(ring),
        }
    }

    /// Reports that a read of standard input gave `data`; no bytes mean that
    /// the stream has ended. The pump stops at the end of the stream and
    /// when the consumer is gone; else it writes what fits to the buffer and
    /// asks to wait for room if bytes are left over.
    pub fn on_input(&mut self, ring: &mut RingBuffer, data: &[u8]) -> (action: StdinAction)
        requires
            old(self).wf(),
            old(ring).wf(),
        ensures
            final(self).wf(),
            final(ring).wf(),
            (final(self)@, final(ring)@) == old(self)@.on_input(old(ring)@, data@),
            action == final(self)@.action(),
    {
        match self.phase {
            StdinPhase::Reading => {},
            _ => {
                return self.action();
            },
        }
        if data.len() == 0 {
            return self.stop(ring);
        }
        self.chunk.clear();
        self.chunk.extend_from_slice(data);
        self.sent = 0;
        assert(self@.pending =~= data@);
        self.deliver(ring)
    }

    /// Reports that a read of standard input failed. The pump stops.
    pub fn on_input_error(&mut self, ring: &mut RingBuffer) -> (action: StdinAction)
        requires
            old(self).wf(),
            old(ring).wf(),
        ensures
            final(self).wf(),
            final(ring).wf(),
            (final(self)@, final(ring)@) == old(self)@.on_input_error(old(ring)@),
            action == final(self)@.action(),
    {
        match self.phase {
            StdinPhase::Reading => self.stop(ring),
            _ => self.action(),
        }
    }

    /// Tries to deliver the held input. The pump stops if the consumer is
    /// gone; else it writes what fits, goes back to reading once nothing is
    /// left, and asks to wait while the buffer is full.
    pub fn on_capacity(&mut self, ring: &mut RingBuffer) -> (action: StdinAction)
        requires
            old(self).wf(),
            old(ring).wf(),
        ensures
            final(self).wf(),
            final(ring).wf(),
            (final(self)@, final(ring)@) == old(self)@.on_capacity(old(ring)@),
            action == final(self)@.action(),
    {
        match self.phase {
            StdinPhase::Delivering => self.deliver(ring),
            _ => self.action(),
        }
    }
}

/// Where the output pump stands.
#[derive(Clone, Copy, Debug, PartialEq, Eq, Structural)]
pub enum StdoutPhase {
    /// Waiting for the buffer to hold output.
    Draining,
    /// Holding output that the operating system has yet to take.
    Writing,
    /// Waiting for standard output to be flushed.
    Flushing,
    /// Finished.
    Stopped,
}

/// What the output pump asks its driver to do next.
#[derive(Clone, Copy, Debug, PartialEq, Eq, Structural)]
pub enum StdoutAction {
    /// Try to take output from the buffer, sleeping while it is empty.
    AwaitData,
    /// Write the whole chunk to standard output.
    WriteOutput,
    /// Flush standard output.
    Flush,
    /// End the thread.
    Exit,
}

/// The abstract state of the output pump.
pub struct StdoutPumpState {
    /// Where the pump stands.
    pub phase: StdoutPhase,
    /// The output taken from the buffer and not yet written, oldest first.
    pub chunk: Seq<u8>,
}

impl StdoutPumpState {
    /// Output is held exactly while writing, and fits the scratch area.
    pub open spec fn wf(self) -> bool {
        &&& self.phase == StdoutPhase::Writing <==> self.chunk.len() > 0
        &&& self.chunk.len() <= SCRATCH_SIZE
    }

    /// A pump that has not taken anything yet.
    pub open spec fn initial() -> StdoutPumpState {
        StdoutPumpState { phase: StdoutPhase::Draining, chunk: Seq::empty() }
    }

    /// The stopped pump.
    pub open spec fn stopped() -> StdoutPumpState {
        StdoutPumpState { phase: StdoutPhase::Stopped, chunk: Seq::empty() }
    }

    /// What the driver is to do in this state.
    pub open spec fn action(self) -> StdoutAction {
        match self.phase {
            StdoutPhase::Draining => StdoutAction::AwaitData,
            StdoutPhase::Writing => StdoutAction::WriteOutput,
            StdoutPhase::Flushing => StdoutAction::Flush,
            StdoutPhase::Stopped => StdoutAction::Exit,
        }
    }

    /// One attempt to take output from the buffer, as a blocking read of at
    /// least one byte proceeds: nothing happens while the buffer is not
    /// ready; the pump stops if the producer is gone and nothing is left;
    /// else the oldest bytes, as many as the scratch area takes, become the
    /// chunk.
    pub open spec fn drain(ring: RingState) -> (StdoutPumpState, RingState) {
        if !ring.readable() {
            (StdoutPumpState::initial(), ring)
        } else if ring.read_fails() {
            (StdoutPumpState::stopped(), ring.consumer_dropped())
        } else {
            (
                StdoutPumpState {
                    phase: StdoutPhase::Writing,
                    chunk: ring.read_bytes(SCRATCH_SIZE as nat),
                },
                ring.after_read(SCRATCH_SIZE as nat),
            )
        }
    }

    /// The step that tries to take output from the buffer.
    pub open spec fn on_data(self, ring: RingState) -> (StdoutPumpState, RingState) {
        if self.phase != StdoutPhase::Draining {
            (self, ring)
        } else {
            StdoutPumpState::drain(ring)
        }
    }

    /// The step after the chunk has been written (`ok`) or the write has
    /// failed.
    pub open spec fn on_written(self, ring: RingState, ok: bool) -> (StdoutPumpState, RingState) {
        if self.phase != StdoutPhase::Writing {
            (self, ring)
        } else if ok {
            (StdoutPumpState { phase: StdoutPhase::Flushing, chunk: Seq::empty() }, ring)
        } else {
            (StdoutPumpState::stopped(), ring.consumer_dropped())
        }
    }

    /// The step after standard output has been flushed (`ok`) or the flush
    /// has failed.
    pub open spec fn on_flushed(self, ring: RingState, ok: bool) -> (StdoutPumpState, RingState) {
        if self.phase != StdoutPhase::Flushing {
            (self, ring)
        } else if ok {
            StdoutPumpState::drain(ring)
        } else {
            (StdoutPumpState::stopped(), ring.consumer_dropped())
        }
    }
}

/// The pump that carries a ring buffer's bytes to standard output.
pub struct StdoutPump {
    phase: StdoutPhase,
    scratch: Vec<u8>,
    filled: usize,
}

impl View for StdoutPump {
    type V = StdoutPumpState;

    closed spec fn view(&self) -> StdoutPumpState {
        StdoutPumpState { phase: self.phase, chunk: self.scratch@.take(self.filled as int) }
    }
}

impl StdoutPump {
    /// The representation invariant.
    pub closed spec fn wf(&self) -> bool {
        &&& self.scratch@.len() == SCRATCH_SIZE
        &&& self.filled <= SCRATCH_SIZE
        &&& self@.wf()
    }

    /// A well-formed pump has a well-formed abstract state.
    pub proof fn lemma_wf_view(&self)
        requires
            self.wf(),
        ensures
            self@.wf(),
    {
    }

    /// Creates a pump that is about to take output from the buffer.
    pub fn new() -> (pump: StdoutPump)
        ensures
            pump.wf(),
            pump@ == StdoutPumpState::initial(),
    {
        let pump = StdoutPump {
            phase: StdoutPhase::Draining,
            scratch: vec![0u8; SCRATCH_SIZE],
            filled: 0,
        };
        assert(pump@.chunk =~= Seq::<u8>::empty());
        pump
    }

    /// Where the pump stands.
    pub fn phase(&self) -> (phase: StdoutPhase)
        ensures
            phase == self@.phase,
    {
        self.phase
    }

    /// What the driver is to do next.
    pub fn action(&self) -> (action: StdoutAction)
        ensures
            action == self@.action(),
    {
        match self.phase {
            StdoutPhase::Draining => StdoutAction::AwaitData,
            StdoutPhase::Writing => StdoutAction::WriteOutput,
            StdoutPhase::Flushing => StdoutAction::Flush,
            StdoutPhase::Stopped => StdoutAction::Exit,
        }
    }

    /// The output that the driver is to write: empty unless the pump is
    /// writing.
    pub fn chunk(&self) -> (bytes: &[u8])
        requires
            self.wf(),
        ensures
            bytes@ == self@.chunk,
    {
        let bytes: &[u8] = slice_subrange(self.scratch.as_slice(), 0, self.filled);
        assert(bytes@ =~= self@.chunk);
        bytes
    }

    /// Stops the pump and gives up the consumer side of the buffer.
    fn stop(&mut self, ring: &mut RingBuffer) -> (action: StdoutAction)
        requires
            old(self).wf(),
            old(ring).wf(),
        ensures
            final(self).wf(),
            final(ring).wf(),
            final(self)@ == StdoutPumpState::stopped(),
            final(ring)@ == old(ring)@.consumer_dropped(),
            action == StdoutAction::Exit,
    {
        self.phase = StdoutPhase::Stopped;
        self.filled = 0;
        ring.drop_consumer();
        assert(self@.chunk =~= Seq::<u8>::empty());
        StdoutAction::Exit
    }

    /// Makes one attempt to take output from the buffer.
    fn drain(&mut self, ring: &mut RingBuffer) -> (action: StdoutAction)
        requires
            old(self).wf(),
            old(ring).wf(),
        ensures
            final(self).wf(),
            final(ring).wf(),
            (final(self)@, final(ring)@) == StdoutPumpState::drain(old(ring)@),
            action == final(self)@.action(),
    {
        proof {
            ring.lemma_wf_view();
        }
        match ring.poll_read() {
            Readiness::NotReady => {
                self.phase = StdoutPhase::Draining;
                self.filled = 0;
                assert(self@.chunk =~= Seq::<u8>::empty());
                return StdoutAction::AwaitData;
            },
            Readiness::Ready => {},
        }
        match ring.read(self.scratch.as_mut_slice()) {
            Ok(count) => {
                self.filled = count;
                self.phase = StdoutPhase::Writing;
                assert(self@.chunk =~= old(ring)@.read_bytes(SCRATCH_SIZE as nat));
                StdoutAction::WriteOutput
            },
            Err(_) => self.stop(ring),
        }
    }

    /// Tries to take output from the buffer. The pump stops if the producer
    /// is gone and nothing is left; it asks to wait while the buffer is
    /// empty; else it takes the oldest bytes and asks to have them written.
    pub fn on_data(&mut self, ring: &mut RingBuffer) -> (action: StdoutAction)
        requires
            old(self).wf(),
            old(ring).wf(),
        ensures
            final(self).wf(),
            final(ring).wf(),
            (final(self)@, final(ring)@) == old(self)@.on_data(old(ring)@),
            action == final(self)@.action(),
    {
        match self.phase {
            StdoutPhase::Draining => self.drain(ring),
            _ => self.action(),
        }
    }

    /// Reports how writing the chunk to standard output went. After a
    /// success the pump asks for a flush, whatever the size of the chunk;
    /// after a failure it stops.
    pub fn on_written(&mut self, ring: &mut RingBuffer, ok: bool) -> (action: StdoutAction)
        requires
            old(self).wf(),
            old(ring).wf(),
        ensures
            final(self).wf(),
            final(ring).wf(),
            (final(self)@, final(ring)@) == old(self)@.on_written(old(ring)@, ok),
            action == final(self)@.action(),
    {
        match self.phase {
            StdoutPhase::Writing => {},
            _ => {
                return self.action();
            },
        }
        if ok {
            self.phase = StdoutPhase::Flushing;
            self.filled = 0;
            assert(self@.chunk =~= Seq::<u8>::empty());
            StdoutAction::Flush
        } else {
            self.stop(ring)
        }
    }

    /// Reports how flushing standard output went. After a success the pump
    /// turns to the buffer again; after a failure it stops.
    pub fn on_flushed(&mut self, ring: &mut RingBuffer, ok: bool) -> (action: StdoutAction)
        requires
            old(self).wf(),
            old(ring).wf(),
        ensures
            final(self).wf(),
            final(ring).wf(),
            (final(self)@, final(ring)@) == old(self)@.on_flushed(old(ring)@, ok),
            action == final(self)@.action(),
    {
        match self.phase {
            StdoutPhase::Flushing => {},
            _ => {
                return self.action();
            },
        }
        if ok {
            self.drain(ring)
        } else {
            self.stop(ring)
        }
    }
}

/// An attempt to deliver held input, with the consumer still there, keeps
/// every byte in order: the bytes buffered afterwards followed by the bytes
/// still held are the bytes buffered before followed by the bytes held
/// before. The pump asks to wait only if the buffer is full afterwards.
pub proof fn lemma_deliver_conserves(pending: Seq<u8>, ring: RingState)
    requires
        ring.wf(),
        ring.consumer_live,
        pending.len() > 0,
    ensures
        ({
            let (pump, after) = StdinPumpState::deliver(pending, ring);
            &&& pump.wf()
            &&& after.wf()
            &&& after.queue + pump.pending == ring.queue + pending
            &&& pump.phase == StdinPhase::Delivering ==> after.free() == 0
            &&& pump.phase != StdinPhase::Stopped
        }),
{
    let (pump, after) = StdinPumpState::deliver(pending, ring);
    assert(after.queue + pump.pending =~= ring.queue + pending);
}

/// An attempt to deliver held input into a buffer with room, with the
/// consumer still there, moves at least one byte.
pub proof fn lemma_deliver_progress(pending: Seq<u8>, ring: RingState)
    requires
        ring.wf(),
        ring.consumer_live,
        ring.free() > 0,
        pending.len() > 0,
    ensures
        StdinPumpState::deliver(pending, ring).0.pending.len() < pending.len(),
        StdinPumpState::deliver(pending, ring).1.queue.len() > ring.queue.len(),
{
}

/// An input pump that waits for room is released once the consumer side is
/// dropped: its next step ends it, whatever the buffer holds, and gives up
/// the producer side.
pub proof fn lemma_consumer_drop_releases_pump(pump: StdinPumpState, ring: RingState)
    requires
        pump.phase == StdinPhase::Delivering,
    ensures
        pump.on_capacity(ring.consumer_dropped()).0 == StdinPumpState::stopped(),
        pump.on_capacity(ring.consumer_dropped()).0.action() == StdinAction::Exit,
        pump.on_capacity(ring.consumer_dropped()).1 == ring.consumer_dropped().producer_dropped(),
{
}

/// An attempt to take output from the buffer keeps every byte in order: the
/// chunk followed by the bytes buffered afterwards are the bytes buffered
/// before. The pump asks to wait only if the buffer is empty and the
/// producer still there, and stops only if it is empty and the producer
/// gone.
pub proof fn lemma_drain_conserves(ring: RingState)
    requires
        ring.wf(),
    ensures
        ({
            let (pump, after) = StdoutPumpState::drain(ring);
            &&& pump.wf()
            &&& after.wf()
            &&& pump.chunk + after.queue == ring.queue
            &&& pump.phase == StdoutPhase::Draining <==> ring.queue.len() == 0
                && ring.producer_live
            &&& pump.phase == StdoutPhase::Stopped <==> ring.queue.len() == 0
                && !ring.producer_live
        }),
{
    let (pump, after) = StdoutPumpState::drain(ring);
    assert(pump.chunk + after.queue =~= ring.queue);
}

/// An output pump that waits for data is released once the producer side is
/// dropped with nothing buffered: its next step ends it and gives up the
/// consumer side.
pub proof fn lemma_producer_drop_releases_pump(pump: StdoutPumpState, ring: RingState)
    requires
        pump.phase == StdoutPhase::Draining,
        ring.queue.len() == 0,
    ensures
        pump.on_data(ring.producer_dropped()).0 == StdoutPumpState::stopped(),
        pump.on_data(ring.producer_dropped()).0.action() == StdoutAction::Exit,
        pump.on_data(ring.producer_dropped()).1 == ring.producer_dropped().consumer_dropped(),
{
}

} // verus!
