//! What to put on the serial line, and when.
//!
//! The device reads into a small buffer and sends nothing back. A packet of
//! more than sixteen bytes is therefore cut into chunks, with a fixed pause
//! after each; the pause stands in for the back-pressure the line lacks and is
//! not the caller's to choose. This module decides the order of writes and
//! pauses. The host that owns the connection carries them out one by one and
//! stops at the first write that fails.

use vstd::prelude::*;
use vstd::slice::{slice_subrange, slice_to_vec};

use crate::error::Error;
use crate::FLUSH;

verus! {

/// Most bytes the device takes in one write.
pub const CHUNK_SIZE: usize = 16;

/// Pause after each chunk of a large packet, in milliseconds.
pub const CHUNK_DELAY_MS: u64 = 100;

/// Pause after a single control byte, in milliseconds.
pub const BYTE_DELAY_MS: u64 = 10;

/// Speed of the serial line.
pub const BAUD_RATE: u32 = 19_200;

/// How long opening the connection may take, in milliseconds.
pub const OPEN_TIMEOUT_MS: u64 = 10;

/// One thing for the host to do on the serial line.
#[derive(Debug, PartialEq, Eq)]
pub enum Operation {
    /// Hand these bytes to the line in one write.
    Write(Vec<u8>),
    /// Block for this many milliseconds.
    Sleep(u64),
}

/// An [`Operation`] as a plain value.
pub enum Step {
    Write(Seq<u8>),
    Sleep(u64),
}

impl DeepView for Operation {
    type V = Step;

    open spec fn deep_view(&self) -> Step {
        match self {
            Operation::Write(bytes) => Step::Write(bytes@),
            Operation::Sleep(millis) => Step::Sleep(*millis),
        }
    }
}

/// The number of chunks that `len` bytes are cut into.
pub open spec fn chunk_count(len: nat) -> nat {
    ((len + CHUNK_SIZE - 1) / CHUNK_SIZE as int) as nat
}

/// Where chunk `k` of a packet starts.
pub open spec fn chunk_start(k: int) -> int {
    CHUNK_SIZE * k
}

/// Chunk `k` of a packet: a full chunk from its start on, or as many bytes
/// as are left.
pub open spec fn chunk(packet: Seq<u8>, k: int) -> Seq<u8> {
    packet.subrange(
        chunk_start(k),
        if chunk_start(k + 1) <= packet.len() {
            chunk_start(k + 1)
        } else {
            packet.len() as int
        },
    )
}

/// A packet sent chunk by chunk: each chunk in order, and the chunk pause
/// after each of them, the last one too.
pub open spec fn chunked_steps(packet: Seq<u8>) -> Seq<Step> {
    Seq::new(
        2 * chunk_count(packet.len()),
        |i: int|
            if i % 2 == 0 {
                Step::Write(chunk(packet, i / 2))
            } else {
                Step::Sleep(CHUNK_DELAY_MS)
            },
    )
}

/// Sending a packet: in one write if it has at most sixteen bytes, chunk by
/// chunk if it has more; then the pause the caller asked for.
pub open spec fn write_steps(packet: Seq<u8>, post_delay_ms: u64) -> Seq<Step> {
    if packet.len() <= CHUNK_SIZE {
        seq![Step::Write(packet), Step::Sleep(post_delay_ms)]
    } else {
        chunked_steps(packet).push(Step::Sleep(post_delay_ms))
    }
}

/// The bytes one step puts on the line: its payload, or nothing for a pause.
pub open spec fn step_bytes(step: Step) -> Seq<u8> {
    match step {
        Step::Write(bytes) => bytes,
        Step::Sleep(_) => Seq::empty(),
    }
}

/// Everything a schedule puts on the line, in the order it goes out.
pub open spec fn line_bytes(steps: Seq<Step>) -> Seq<u8> {
    steps.map_values(|step: Step| step_bytes(step)).flatten()
}

/// How long one step blocks, in milliseconds.
pub open spec fn step_pause(step: Step) -> nat {
    match step {
        Step::Write(_) => 0,
        Step::Sleep(millis) => millis as nat,
    }
}

/// How long a schedule blocks in all, in milliseconds.
pub open spec fn total_pause(steps: Seq<Step>) -> nat
    decreases steps.len(),
{
    if steps.len() == 0 {
        0
    } else {
        total_pause(steps.drop_last()) + step_pause(steps.last())
    }
}

/// Plans the sending of one packet.
pub fn write(packet: Vec<u8>, post_delay_ms: u64) -> (schedule: Vec<Operation>)
    ensures
        schedule.deep_view() == write_steps(packet@, post_delay_ms),
{
    let ghost bytes = packet@;
    let mut schedule = if packet.len() <= CHUNK_SIZE {
        vec![Operation::Write(packet)]
    } else {
        write_large_packet(packet)
    };
    schedule.push(Operation::Sleep(post_delay_ms));
    assert(schedule.deep_view() =~= write_steps(bytes, post_delay_ms));
    schedule
}

/// Plans the sending of a packet chunk by chunk.
pub fn write_large_packet(packet: Vec<u8>) -> (schedule: Vec<Operation>)
    ensures
        schedule.deep_view() == chunked_steps(packet@),
{
    let mut schedule: Vec<Operation> = Vec::new();
    let mut start: usize = 0;
    let ghost mut k: int = 0;
    while start < packet.len()
        invariant
            0 <= k <= chunk_count(packet@.len()),
            start <= packet.len(),
            start == chunk_start(k) || (start == packet.len() && k == chunk_count(packet@.len())),
            schedule@.len() == 2 * k,
            schedule.deep_view() == chunked_steps(packet@).take(2 * k),
        decreases packet.len() - start,
    {
        let end: usize = if packet.len() - start > CHUNK_SIZE {
            start + CHUNK_SIZE
        } else {
            packet.len()
        };
        let piece = slice_to_vec(slice_subrange(packet.as_slice(), start, end));
        assert(piece@ == chunk(packet@, k));
        schedule.push(Operation::Write(piece));
        schedule.push(Operation::Sleep(CHUNK_DELAY_MS));
        proof {
            k = k + 1;
            assert(schedule.deep_view() =~= chunked_steps(packet@).take(2 * k));
        }
        start = end;
    }
    assert(schedule.deep_view() =~= chunked_steps(packet@));
    schedule
}

/// Plans the sending of one control byte outside any packet.
pub fn write_byte(byte: u8) -> (schedule: Vec<Operation>)
    ensures
        schedule.deep_view() == seq![Step::Write(seq![byte]), Step::Sleep(BYTE_DELAY_MS)],
{
    let bytes = vec![byte];
    assert(bytes@ =~= seq![byte]);
    let schedule = vec![Operation::Write(bytes), Operation::Sleep(BYTE_DELAY_MS)];
    assert(schedule.deep_view() =~~= seq![Step::Write(seq![byte]), Step::Sleep(BYTE_DELAY_MS)]);
    schedule
}

/// Plans the flush: the one reserved byte, and no pause. Nothing is read
/// back.
pub fn flush() -> (schedule: Vec<Operation>)
    ensures
        schedule.deep_view() == seq![Step::Write(seq![FLUSH])],
{
    let bytes = vec![FLUSH];
    assert(bytes@ =~= seq![FLUSH]);
    let schedule = vec![Operation::Write(bytes)];
    assert(schedule.deep_view() =~~= seq![Step::Write(seq![FLUSH])]);
    schedule
}

/// The course of one schedule while the host carries it out.
///
/// The host asks for the next operation, performs it, and reports how it
/// went. Operations come in the order of the schedule. After the first one
/// that fails none is handed out again: nothing is retried and nothing is
/// skipped.
pub struct Transfer {
    schedule: Vec<Operation>,
    position: usize,
    broken: bool,
}

impl Transfer {
    #[verifier::type_invariant]
    spec fn well_formed(self) -> bool {
        &&& self.position <= self.schedule@.len()
        &&& self.broken ==> self.position < self.schedule@.len()
    }

    /// The schedule being carried out.
    pub closed spec fn steps(self) -> Seq<Step> {
        self.schedule.deep_view()
    }

    /// How many operations have been carried out.
    pub closed spec fn performed(self) -> nat {
        self.position as nat
    }

    /// Whether an operation has failed.
    pub closed spec fn failed(self) -> bool {
        self.broken
    }

    /// Whether nothing is left to do: all is carried out, or one operation
    /// has failed.
    pub open spec fn finished(self) -> bool {
        self.failed() || self.performed() == self.steps().len()
    }

    /// Starts on a schedule, with nothing carried out yet.
    pub fn new(schedule: Vec<Operation>) -> (transfer: Transfer)
        ensures
            transfer.steps() == schedule.deep_view(),
            transfer.performed() == 0,
            !transfer.failed(),
    {
        Transfer { schedule, position: 0, broken: false }
    }

    /// The operation to carry out now, or `None` once the transfer has
    /// finished.
    pub fn next(&self) -> (operation: Option<&Operation>)
        ensures
            self.performed() <= self.steps().len(),
            match operation {
                Some(operation) => !self.finished() && operation.deep_view() == self.steps()[self.performed() as int],
                None => self.finished(),
            },
    {
        proof {
            use_type_invariant(self);
        }
        if self.broken || self.position >= self.schedule.len() {
            None
        } else {
            Some(&self.schedule[self.position])
        }
    }

    /// Records how the operation handed out last went. A success moves on
    /// to the next operation; a failure ends the transfer where it stands.
    /// On a finished transfer this changes nothing.
    pub fn report(&mut self, succeeded: bool)
        ensures
            final(self).steps() == old(self).steps(),
            old(self).finished() ==> final(self).performed() == old(self).performed()
                && final(self).failed() == old(self).failed(),
            !old(self).finished() && succeeded ==> final(self).performed() == old(self).performed()
                + 1 && !final(self).failed(),
            !old(self).finished() && !succeeded ==> final(self).performed() == old(
                self,
            ).performed() && final(self).failed(),
    {
        proof {
            use_type_invariant(&*self);
        }
        if self.broken || self.position >= self.schedule.len() {
            return ;
        }
        if succeeded {
            self.position += 1;
        } else {
            self.broken = true;
        }
    }

    /// How the transfer ended: `None` while operations are left, success
    /// once all are carried out, and a transport error after a failure.
    pub fn result(&self) -> (result: Option<Result<(), Error>>)
        ensures
            result == if self.failed() {
                Some(Err::<(), Error>(Error::TransportError))
            } else if self.performed() == self.steps().len() {
                Some(Ok::<(), Error>(()))
            } else {
                None
            },
    {
        proof {
            use_type_invariant(self);
        }
        if self.broken {
            Some(Err(Error::TransportError))
        } else if self.position >= self.schedule.len() {
            Some(Ok(()))
        } else {
            None
        }
    }
}

/// Every chunk but the last has sixteen bytes; the last has what is left,
/// at least one byte and at most sixteen.
pub proof fn chunk_lengths(packet: Seq<u8>, k: int)
    requires
        0 <= k < chunk_count(packet.len()),
    ensures
        1 <= chunk(packet, k).len() <= CHUNK_SIZE,
        k + 1 < chunk_count(packet.len()) ==> chunk(packet, k).len() == CHUNK_SIZE,
        k + 1 == chunk_count(packet.len()) ==> chunk(packet, k).len() == packet.len() - chunk_start(
            k,
        ),
{
}

/// A chunked packet is two steps for each chunk: the write of the chunk and,
/// right after it, the chunk pause.
pub proof fn chunked_steps_alternate(packet: Seq<u8>, k: int)
    requires
        0 <= k < chunk_count(packet.len()),
    ensures
        chunked_steps(packet).len() == 2 * chunk_count(packet.len()),
        chunked_steps(packet)[2 * k] == Step::Write(chunk(packet, k)),
        chunked_steps(packet)[2 * k + 1] == Step::Sleep(CHUNK_DELAY_MS),
{
}

/// The first `2 * k` steps of a chunked packet put its first `k` chunks on
/// the line, and block for `k` chunk pauses.
proof fn lemma_chunked_prefix(packet: Seq<u8>, k: int)
    requires
        0 <= k <= chunk_count(packet.len()),
    ensures
        line_bytes(chunked_steps(packet).take(2 * k)) == packet.take(
            if chunk_start(k) <= packet.len() {
                chunk_start(k)
            } else {
                packet.len() as int
            },
        ),
        total_pause(chunked_steps(packet).take(2 * k)) == k * CHUNK_DELAY_MS,
    decreases k,
{
    let steps = chunked_steps(packet);
    let part = |step: Step| step_bytes(step);
    if k == 0 {
        assert(steps.take(0).map_values(part) == Seq::<Seq<u8>>::empty());
    } else {
        lemma_chunked_prefix(packet, k - 1);
        let before = steps.take(2 * k - 2);
        let with_write = steps.take(2 * k - 1);
        let now = steps.take(2 * k);
        assert(with_write == before.push(Step::Write(chunk(packet, k - 1))));
        assert(now == with_write.push(Step::Sleep(CHUNK_DELAY_MS)));
        assert(with_write.drop_last() == before);
        assert(now.drop_last() == with_write);
        assert(with_write.map_values(part) == before.map_values(part).push(
            chunk(packet, k - 1),
        ));
        assert(now.map_values(part) == with_write.map_values(part).push(Seq::empty()));
        before.map_values(part).lemma_flatten_push(chunk(packet, k - 1));
        with_write.map_values(part).lemma_flatten_push(Seq::empty());
        assert(total_pause(with_write) == total_pause(before));
        assert(total_pause(now) == total_pause(with_write) + CHUNK_DELAY_MS);
    }
}

/// Whatever the packet and the pause, the writes of a schedule put exactly
/// the packet on the line: every byte once, in order.
pub proof fn write_sends_packet(packet: Seq<u8>, post_delay_ms: u64)
    ensures
        line_bytes(write_steps(packet, post_delay_ms)) == packet,
{
    let part = |step: Step| step_bytes(step);
    let pause = Step::Sleep(post_delay_ms);
    if packet.len() <= CHUNK_SIZE {
        let steps = write_steps(packet, post_delay_ms);
        assert(steps.map_values(part) == Seq::<Seq<u8>>::empty().push(packet).push(
            Seq::empty(),
        ));
        Seq::<Seq<u8>>::empty().lemma_flatten_push(packet);
        Seq::<Seq<u8>>::empty().push(packet).lemma_flatten_push(Seq::empty());
    } else {
        let chunked = chunked_steps(packet);
        lemma_chunked_prefix(packet, chunk_count(packet.len()) as int);
        assert(chunked.take(chunked.len() as int) == chunked);
        assert(packet.take(packet.len() as int) == packet);
        assert(chunked.push(pause).map_values(part) == chunked.map_values(part).push(
            Seq::empty(),
        ));
        chunked.map_values(part).lemma_flatten_push(Seq::empty());
    }
}

/// A small packet blocks for the pause the caller asked for and no longer. A
/// large one blocks for one chunk pause after each of its chunks, whatever
/// the caller asked for, and then for the caller's pause.
pub proof fn write_blocks_for(packet: Seq<u8>, post_delay_ms: u64)
    ensures
        total_pause(write_steps(packet, post_delay_ms)) == if packet.len() <= CHUNK_SIZE {
            post_delay_ms as int
        } else {
            chunk_count(packet.len()) * CHUNK_DELAY_MS + post_delay_ms
        },
{
    let steps = write_steps(packet, post_delay_ms);
    let front = steps.drop_last();
    assert(total_pause(steps) == total_pause(front) + post_delay_ms);
    if packet.len() <= CHUNK_SIZE {
        assert(front.drop_last() == Seq::<Step>::empty());
        assert(total_pause(front.drop_last()) == 0);
        assert(total_pause(front) == 0);
    } else {
        let chunked = chunked_steps(packet);
        lemma_chunked_prefix(packet, chunk_count(packet.len()) as int);
        assert(chunked.take(chunked.len() as int) == chunked);
        assert(front == chunked);
    }
}

} // verus!
