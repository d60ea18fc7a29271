//! A bounded byte queue with one producer side and one consumer side.
//!
//! [`RingBuffer`] is the sequential core of the queue: a fixed block of
//! storage, the position of the oldest byte and the number of buffered
//! bytes, together with one liveness flag per side. Its meaning is the
//! abstract [`RingState`]: a capacity, the buffered bytes in arrival order,
//! and the two flags. Every operation is specified as a transition of that
//! state.
//!
//! Sharing a buffer between threads, and suspending a thread until the other
//! side has made progress, is left to the caller; the operations here never
//! wait.

use vstd::prelude::*;

verus! {

/// The answer of a readiness query.
#[derive(Clone, Copy, Debug, PartialEq, Eq, Structural)]
pub enum Readiness {
    /// The operation can make progress, or will fail at once because the
    /// other side is gone.
    Ready,
    /// The operation could not move a single byte right now.
    NotReady,
}

/// The failure of a transfer whose counterpart has been dropped.
#[derive(Clone, Copy, Debug, PartialEq, Eq, Structural)]
pub struct Closed;

/// The abstract state of a ring buffer.
pub struct RingState {
    /// The number of bytes that the buffer can hold.
    pub capacity: nat,
    /// The bytes written and not yet consumed, oldest first.
    pub queue: Seq<u8>,
    /// Whether the producer side is still held.
    pub producer_live: bool,
    /// Whether the consumer side is still held.
    pub consumer_live: bool,
}

impl RingState {
    /// The occupancy bound: a positive capacity that the queue never exceeds.
    pub open spec fn wf(self) -> bool {
        &&& self.capacity > 0
        &&& self.queue.len() <= self.capacity
    }

    /// An empty buffer of the given capacity with both sides held.
    pub open spec fn fresh(capacity: nat) -> RingState {
        RingState { capacity, queue: Seq::empty(), producer_live: true, consumer_live: true }
    }

    /// The number of bytes that can still be written.
    pub open spec fn free(self) -> nat {
        (self.capacity - self.queue.len()) as nat
    }

    /// Whether the producer is ready: there is room, or the consumer is gone.
    pub open spec fn writable(self) -> bool {
        self.free() > 0 || !self.consumer_live
    }

    /// Whether the consumer is ready: a byte is buffered, or the producer is
    /// gone.
    pub open spec fn readable(self) -> bool {
        self.queue.len() > 0 || !self.producer_live
    }

    /// Whether a write of `len` bytes honours the readiness protocol: the
    /// producer is ready and, unless the write fails, at least one byte can
    /// move.
    pub open spec fn admits_write(self, len: nat) -> bool {
        !self.consumer_live || (self.free() > 0 && len > 0)
    }

    /// Whether a read into `room` bytes honours the readiness protocol: the
    /// consumer is ready and, unless the read fails, at least one byte can
    /// move.
    pub open spec fn admits_read(self, room: nat) -> bool {
        if self.queue.len() > 0 {
            room > 0
        } else {
            !self.producer_live
        }
    }

    /// Whether a write fails: the consumer has been dropped.
    pub open spec fn write_fails(self) -> bool {
        !self.consumer_live
    }

    /// Whether a read fails: the producer has been dropped and nothing is
    /// left to drain.
    pub open spec fn read_fails(self) -> bool {
        !self.producer_live && self.queue.len() == 0
    }

    /// The number of bytes that a successful write of `len` bytes moves.
    pub open spec fn accepted(self, len: nat) -> nat {
        if len <= self.free() {
            len
        } else {
            self.free()
        }
    }

    /// The number of bytes that a successful read into `room` bytes moves.
    pub open spec fn delivered(self, room: nat) -> nat {
        if room <= self.queue.len() {
            room
        } else {
            self.queue.len()
        }
    }

    /// What a write of `len` bytes returns.
    pub open spec fn write_result(self, len: nat) -> Result<usize, Closed> {
        if self.write_fails() {
            Err(Closed)
        } else {
            Ok(self.accepted(len) as usize)
        }
    }

    /// What a read into `room` bytes returns.
    pub open spec fn read_result(self, room: nat) -> Result<usize, Closed> {
        if self.read_fails() {
            Err(Closed)
        } else {
            Ok(self.delivered(room) as usize)
        }
    }

    /// The bytes that a write of `data` takes over: nothing if the write
    /// fails, else the longest prefix of `data` that fits.
    pub open spec fn written_bytes(self, data: Seq<u8>) -> Seq<u8> {
        if self.write_fails() {
            Seq::empty()
        } else {
            data.take(self.accepted(data.len()) as int)
        }
    }

    /// The state after a write of `data`: the bytes taken over join the queue
    /// at its tail.
    pub open spec fn after_write(self, data: Seq<u8>) -> RingState {
        RingState { queue: self.queue + self.written_bytes(data), ..self }
    }

    /// The bytes that a read into `room` bytes hands out: the oldest ones.
    pub open spec fn read_bytes(self, room: nat) -> Seq<u8> {
        self.queue.take(self.delivered(room) as int)
    }

    /// The state after a read into `room` bytes: the bytes handed out leave
    /// the head of the queue.
    pub open spec fn after_read(self, room: nat) -> RingState {
        RingState { queue: self.queue.skip(self.delivered(room) as int), ..self }
    }

    /// The state after the producer side has been dropped.
    pub open spec fn producer_dropped(self) -> RingState {
        RingState { producer_live: false, ..self }
    }

    /// The state after the consumer side has been dropped.
    pub open spec fn consumer_dropped(self) -> RingState {
        RingState { consumer_live: false, ..self }
    }
}

/// A fixed-capacity circular byte buffer.
pub struct RingBuffer {
    storage: Vec<u8>,
    head: usize,
    occupied: usize,
    producer_live: bool,
    consumer_live: bool,
}

impl View for RingBuffer {
    type V = RingState;

    closed spec fn view(&self) -> RingState {
        RingState {
            capacity: self.storage@.len(),
            queue: Seq::new(self.occupied as nat, |i: int| self.storage@[self.slot(i)]),
            producer_live: self.producer_live,
            consumer_live: self.consumer_live,
        }
    }
}

impl RingBuffer {
    /// The storage index of the `i`-th buffered byte, counted from the oldest.
    spec fn slot(&self, i: int) -> int {
        if self.head + i >= self.storage@.len() {
            self.head + i - self.storage@.len()
        } else {
            self.head + i
        }
    }

    /// The representation invariant: the head lies inside the storage and
    /// the occupancy does not exceed it.
    pub closed spec fn wf(&self) -> bool {
        &&& self.storage@.len() > 0
        &&& self.head < self.storage@.len()
        &&& self.occupied <= self.storage@.len()
    }

    /// A well-formed buffer has a well-formed abstract state.
    pub proof fn lemma_wf_view(&self)
        requires
            self.wf(),
        ensures
            self@.wf(),
    {
    }

    /// Creates an empty buffer that holds up to `capacity` bytes. A buffer
    /// without room could never move a byte, so `capacity` must be positive.
    pub fn create(capacity: usize) -> (ring: RingBuffer)
        requires
            capacity > 0,
        ensures
            ring.wf(),
            ring@ == RingState::fresh(capacity as nat),
    {
        let storage: Vec<u8> = vec![0u8; capacity];
        let ring = RingBuffer {
            storage,
            head: 0,
            occupied: 0,
            producer_live: true,
            consumer_live: true,
        };
        assert(ring@.queue =~= Seq::<u8>::empty());
        ring
    }

    /// The number of bytes that the buffer can hold.
    pub fn capacity(&self) -> (n: usize)
        requires
            self.wf(),
        ensures
            n == self@.capacity,
            n > 0,
    {
        self.storage.len()
    }

    /// The number of buffered bytes.
    pub fn occupied(&self) -> (n: usize)
        requires
            self.wf(),
        ensures
            n == self@.queue.len(),
            n <= self@.capacity,
    {
        self.occupied
    }

    /// The number of bytes that can still be written.
    pub fn free(&self) -> (n: usize)
        requires
            self.wf(),
        ensures
            n == self@.free(),
    {
        self.storage.len() - self.occupied
    }

    /// Whether the producer side is still held.
    pub fn producer_live(&self) -> (live: bool)
        ensures
            live == self@.producer_live,
    {
        self.producer_live
    }

    /// Whether the consumer side is still held.
    pub fn consumer_live(&self) -> (live: bool)
        ensures
            live == self@.consumer_live,
    {
        self.consumer_live
    }

    /// Producer readiness: `Ready` exactly if at least one byte of room
    /// exists or the consumer has been dropped.
    pub fn poll_write(&self) -> (readiness: Readiness)
        requires
            self.wf(),
        ensures
            readiness == Readiness::Ready <==> self@.writable(),
    {
        if !self.consumer_live || self.occupied < self.storage.len() {
            Readiness::Ready
        } else {
            Readiness::NotReady
        }
    }

    /// Consumer readiness: `Ready` exactly if at least one byte is buffered
    /// or the producer has been dropped.
    pub fn poll_read(&self) -> (readiness: Readiness)
        requires
            self.wf(),
        ensures
            readiness == Readiness::Ready <==> self@.readable(),
    {
        if !self.producer_live || self.occupied > 0 {
            Readiness::Ready
        } else {
            Readiness::NotReady
        }
    }

    /// Writes the longest prefix of `buf` that currently fits, without
    /// waiting. The producer must have been found ready. Fails with `Closed`,
    /// leaving the buffer as it was, exactly if the consumer has been
    /// dropped; a success moves at least one byte.
    pub fn write(&mut self, buf: &[u8]) -> (result: Result<usize, Closed>)
        requires
            old(self).wf(),
            old(self)@.admits_write(buf@.len()),
        ensures
            final(self).wf(),
            final(self)@ == old(self)@.after_write(buf@),
            result == old(self)@.write_result(buf@.len()),
            result matches Ok(n) ==> n >= 1,
    {
        if !self.consumer_live {
            assert(self@.queue + Seq::<u8>::empty() =~= self@.queue);
            return Err(Closed);
        }
        let capacity: usize = self.storage.len();
        let room: usize = capacity - self.occupied;
        let count: usize = if buf.len() <= room {
            buf.len()
        } else {
            room
        };
        let ghost before = self@;
        let mut moved: usize = 0;
        assert(before.queue + buf@.take(0) =~= before.queue);
        while moved < count
            invariant
                self.wf(),
                moved <= count,
                count <= buf@.len(),
                before.queue.len() + count <= capacity,
                capacity == self.storage@.len(),
                self.occupied == before.queue.len() + moved,
                self@ == (RingState { queue: before.queue + buf@.take(moved as int), ..before }),
            decreases count - moved,
        {
            let ghost prior = self@;
            let tail: usize = if self.head >= capacity - self.occupied {
                self.head - (capacity - self.occupied)
            } else {
                self.head + self.occupied
            };
            self.storage[tail] = buf[moved];
            self.occupied = self.occupied + 1;
            moved = moved + 1;
            assert(self@.queue =~= prior.queue.push(buf@[moved - 1]));
            assert(buf@.take(moved as int) =~= buf@.take(moved - 1).push(buf@[moved - 1]));
            assert(self@.queue =~= before.queue + buf@.take(moved as int));
        }
        Ok(count)
    }

    /// Moves the oldest buffered bytes into the front of `buf`, as many as
    /// `buf` can take, without waiting. The consumer must have been found
    /// ready. Fails with `Closed`, leaving everything as it was, exactly if
    /// the producer has been dropped and the buffer is empty; a success moves
    /// at least one byte. The rest of `buf` keeps its contents.
    pub fn read(&mut self, buf: &mut [u8]) -> (result: Result<usize, Closed>)
        requires
            old(self).wf(),
            old(self)@.admits_read(old(buf)@.len()),
        ensures
            final(self).wf(),
            result == old(self)@.read_result(old(buf)@.len()),
            result is Err ==> final(self)@ == old(self)@ && final(buf)@ == old(buf)@,
            result matches Ok(n) ==> {
                &&& n >= 1
                &&& final(self)@ == old(self)@.after_read(old(buf)@.len())
                &&& final(buf)@ == old(self)@.read_bytes(old(buf)@.len()) + old(buf)@.skip(n as int)
            },
    {
        if self.occupied == 0 {
            return Err(Closed);
        }
        let capacity: usize = self.storage.len();
        let count: usize = if buf.len() <= self.occupied {
            buf.len()
        } else {
            self.occupied
        };
        let ghost before = self@;
        let ghost target = buf@;
        let mut moved: usize = 0;
        assert(before.queue.skip(0) =~= before.queue);
        assert(before.queue.take(0) + target.skip(0) =~= target);
        while moved < count
            invariant
                self.wf(),
                moved <= count,
                count <= target.len(),
                count <= before.queue.len(),
                capacity == self.storage@.len(),
                self.occupied + moved == before.queue.len(),
                buf@.len() == target.len(),
                self@ == (RingState { queue: before.queue.skip(moved as int), ..before }),
                buf@ == before.queue.take(moved as int) + target.skip(moved as int),
            decreases count - moved,
        {
            let ghost prior = self@;
            let ghost filled = buf@;
            let byte: u8 = self.storage[self.head];
            buf[moved] = byte;
            self.head = if self.head == capacity - 1 {
                0
            } else {
                self.head + 1
            };
            self.occupied = self.occupied - 1;
            moved = moved + 1;
            assert(byte == prior.queue[0]);
            assert(self@.queue =~= prior.queue.skip(1));
            assert(self@.queue =~= before.queue.skip(moved as int));
            assert(buf@ =~= filled.update(moved - 1, byte));
            assert(buf@ =~= before.queue.take(moved as int) + target.skip(moved as int));
        }
        Ok(count)
    }

    /// Records that the producer side has been dropped: no byte will arrive
    /// any more, and once the buffer is drained reads fail with `Closed`.
    pub fn drop_producer(&mut self)
        requires
            old(self).wf(),
        ensures
            final(self).wf(),
            final(self)@ == old(self)@.producer_dropped(),
    {
        self.producer_live = false;
        assert(self@.queue =~= old(self)@.queue);
    }

    /// Records that the consumer side has been dropped: no room will be
    /// reclaimed any more, and writes fail with `Closed`.
    pub fn drop_consumer(&mut self)
        requires
            old(self).wf(),
        ensures
            final(self).wf(),
            final(self)@ == old(self)@.consumer_dropped(),
    {
        self.consumer_live = false;
        assert(self@.queue =~= old(self)@.queue);
    }
}

/// One operation on a ring buffer, as a step of a history.
pub enum RingOp {
    /// The producer offers these bytes.
    Write(Seq<u8>),
    /// The consumer offers room for this many bytes.
    Read(nat),
    /// The producer side is dropped.
    DropProducer,
    /// The consumer side is dropped.
    DropConsumer,
}

impl RingState {
    /// The state after one operation.
    pub open spec fn apply(self, op: RingOp) -> RingState {
        match op {
            RingOp::Write(data) => self.after_write(data),
            RingOp::Read(room) => self.after_read(room),
            RingOp::DropProducer => self.producer_dropped(),
            RingOp::DropConsumer => self.consumer_dropped(),
        }
    }

    /// The bytes that one operation takes over from the producer.
    pub open spec fn taken_by(self, op: RingOp) -> Seq<u8> {
        match op {
            RingOp::Write(data) => self.written_bytes(data),
            _ => Seq::empty(),
        }
    }

    /// The bytes that one operation hands to the consumer.
    pub open spec fn given_by(self, op: RingOp) -> Seq<u8> {
        match op {
            RingOp::Read(room) => self.read_bytes(room),
            _ => Seq::empty(),
        }
    }

    /// The state after a history of operations, applied in order.
    pub open spec fn run(self, ops: Seq<RingOp>) -> RingState
        decreases ops.len(),
    {
        if ops.len() == 0 {
            self
        } else {
            self.run(ops.drop_last()).apply(ops.last())
        }
    }

    /// All bytes taken over from the producer during a history, in order.
    pub open spec fn taken(self, ops: Seq<RingOp>) -> Seq<u8>
        decreases ops.len(),
    {
        if ops.len() == 0 {
            Seq::empty()
        } else {
            self.taken(ops.drop_last()) + self.run(ops.drop_last()).taken_by(ops.last())
        }
    }

    /// All bytes handed to the consumer during a history, in order.
    pub open spec fn given(self, ops: Seq<RingOp>) -> Seq<u8>
        decreases ops.len(),
    {
        if ops.len() == 0 {
            Seq::empty()
        } else {
            self.given(ops.drop_last()) + self.run(ops.drop_last()).given_by(ops.last())
        }
    }
}

/// Every operation keeps the occupancy within the capacity, and the bytes
/// buffered before it followed by the bytes it takes over are the bytes it
/// hands out followed by the bytes buffered after it.
pub proof fn lemma_step_conserves(ring: RingState, op: RingOp)
    requires
        ring.wf(),
    ensures
        ring.apply(op).wf(),
        ring.apply(op).capacity == ring.capacity,
        ring.queue + ring.taken_by(op) == ring.given_by(op) + ring.apply(op).queue,
{
    match op {
        RingOp::Write(data) => {
            assert(ring.queue + ring.taken_by(op) =~= ring.given_by(op) + ring.apply(op).queue);
        },
        RingOp::Read(room) => {
            assert(ring.queue + ring.taken_by(op) =~= ring.given_by(op) + ring.apply(op).queue);
        },
        RingOp::DropProducer => {
            assert(ring.queue + ring.taken_by(op) =~= ring.given_by(op) + ring.apply(op).queue);
        },
        RingOp::DropConsumer => {
            assert(ring.queue + ring.taken_by(op) =~= ring.given_by(op) + ring.apply(op).queue);
        },
    }
}

/// First in, first out, over every history: whatever operations are applied
/// to a buffer and in whatever order, the occupancy stays within the
/// capacity, and the bytes handed to the consumer followed by the bytes still
/// buffered are exactly the bytes buffered at the start followed by the bytes
/// taken over from the producer. No byte is lost, repeated or reordered.
pub proof fn lemma_fifo_history(ring: RingState, ops: Seq<RingOp>)
    requires
        ring.wf(),
    ensures
        ring.run(ops).wf(),
        ring.run(ops).capacity == ring.capacity,
        ring.given(ops) + ring.run(ops).queue == ring.queue + ring.taken(ops),
    decreases ops.len(),
{
    if ops.len() == 0 {
        assert(ring.given(ops) + ring.run(ops).queue =~= ring.queue + ring.taken(ops));
    } else {
        let earlier = ops.drop_last();
        let before = ring.run(earlier);
        lemma_fifo_history(ring, earlier);
        lemma_step_conserves(before, ops.last());
        let taken = before.taken_by(ops.last());
        let given = before.given_by(ops.last());
        assert(ring.given(ops) + ring.run(ops).queue =~= ring.given(earlier) + (given
            + before.apply(ops.last()).queue));
        assert(ring.queue + ring.taken(ops) =~= (ring.queue + ring.taken(earlier)) + taken);
        assert((ring.given(earlier) + before.queue) + taken =~= ring.given(earlier) + (before.queue
            + taken));
    }
}

/// A transfer that honours the readiness protocol and does not fail moves
/// at least one byte, and never more than was offered.
pub proof fn lemma_success_moves_bytes(ring: RingState, len: nat)
    requires
        ring.wf(),
    ensures
        ring.admits_write(len) && !ring.write_fails() ==> 1 <= ring.accepted(len) <= len,
        ring.admits_read(len) && !ring.read_fails() ==> 1 <= ring.delivered(len) <= len,
        ring.admits_write(len) ==> ring.writable(),
        ring.admits_read(len) ==> ring.readable(),
{
}

/// Round trip: bytes that fit are taken over whole, and a consumer with
/// enough room then receives everything buffered, the earlier bytes first
/// and the new ones after them in the order written, leaving the buffer
/// empty.
pub proof fn lemma_fifo_round_trip(ring: RingState, data: Seq<u8>, room: nat)
    requires
        ring.wf(),
        ring.consumer_live,
        ring.queue.len() + data.len() <= ring.capacity,
        room >= ring.queue.len() + data.len(),
    ensures
        ring.written_bytes(data) == data,
        ring.after_write(data).read_bytes(room) == ring.queue + data,
        ring.after_write(data).after_read(room).queue == Seq::<u8>::empty(),
{
    assert(ring.written_bytes(data) =~= data);
    let full = ring.after_write(data);
    assert(full.read_bytes(room) =~= ring.queue + data);
    assert(full.after_read(room).queue =~= Seq::<u8>::empty());
}

} // verus!
