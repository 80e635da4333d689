//! The relay: the byte pump of one direction of a proxied connection.
//!
//! A relay drains a read half into a write half through one reusable buffer.
//! It performs no I/O itself. It tells its driver what to do next (fill the
//! buffer from the read half, offer the pending bytes to the write half, or
//! stop), and the driver reports what came of it. The same relay therefore
//! serves blocking sockets on a thread and non-blocking sockets on a task.
//!
//! The driver's loop:
//!
//! 1. ask for [`Relay::action`];
//! 2. on [`RelayAction::Read`], read once into [`Relay::read_slot`] and report
//!    [`RelayEvent::ReadCompleted`] or [`RelayEvent::ReadFailed`];
//! 3. on [`RelayAction::Write`], write [`Relay::pending`] once and report
//!    [`RelayEvent::WriteCompleted`], [`RelayEvent::WriteInterrupted`] or
//!    [`RelayEvent::WriteFailed`];
//! 4. on [`RelayAction::Stop`], leave the loop.
//!
//! What the relay guarantees is stated over [`RelayModel`]: the bytes that the
//! read half produced, the bytes that the write half accepted, and the bytes in
//! between.

use vstd::prelude::*;
use crate::buffer::Buffer;
use crate::buffer::zeroed;

verus! {

/// Why a relay ended before the end of its stream.
#[derive(Clone, Copy, Debug, PartialEq, Eq, Structural)]
pub enum RelayError {
    /// The read half reported an error.
    Read,
    /// The write half reported an error.
    Write,
    /// The write half accepted none of the bytes it was offered.
    WriteZero,
}

/// Where a relay stands in its life. `Done` and `Failed` are final.
#[derive(Clone, Copy, Debug, PartialEq, Eq, Structural)]
pub enum RelayStatus {
    /// The relay is still moving bytes.
    Running,
    /// The read half reached the end of its stream and every byte was written.
    Done,
    /// A read or a write failed.
    Failed(RelayError),
}

/// What the driver reports back after performing a [`RelayAction`].
#[derive(Clone, Copy, Debug, PartialEq, Eq, Structural)]
pub enum RelayEvent {
    /// The read half placed this many bytes at the front of the buffer.
    /// Zero means the end of the stream.
    ReadCompleted(usize),
    /// The read half reported an error.
    ReadFailed,
    /// The write half accepted this many bytes from the front of the pending
    /// bytes.
    WriteCompleted(usize),
    /// The write was interrupted before it accepted anything; it is to be
    /// tried again.
    WriteInterrupted,
    /// The write half reported any other error.
    WriteFailed,
}

/// What the driver is to do next.
#[derive(Clone, Copy, Debug, PartialEq, Eq, Structural)]
pub enum RelayAction {
    /// Read once from the read half into the read slot.
    Read,
    /// Write the pending bytes once to the write half.
    Write,
    /// The relay has ended: do nothing more.
    Stop,
}

/// The mathematical state of a relay.
pub struct RelayModel {
    /// Where the relay stands in its life.
    pub status: RelayStatus,
    /// The contents of the buffer: what the next completed read is taken from.
    pub buffer: Seq<u8>,
    /// The bytes read and not yet accepted by the write half, oldest first.
    pub pending: Seq<u8>,
    /// Every byte the read half has produced so far, in order.
    pub received: Seq<u8>,
    /// Every byte the write half has accepted so far, in order.
    pub delivered: Seq<u8>,
}

impl RelayModel {
    /// A relay that has not moved anything yet.
    pub open spec fn initial(buffer: Seq<u8>) -> RelayModel {
        RelayModel {
            status: RelayStatus::Running,
            buffer,
            pending: Seq::empty(),
            received: Seq::empty(),
            delivered: Seq::empty(),
        }
    }

    /// What holds of a relay at every moment: nothing is pending beyond what
    /// the buffer can hold, the bytes received are the bytes delivered followed
    /// by the bytes pending, and a relay that is done has nothing pending.
    pub open spec fn consistent(self) -> bool {
        &&& self.pending.len() <= self.buffer.len()
        &&& self.received == self.delivered + self.pending
        &&& self.status is Done ==> self.pending.len() == 0
    }

    /// What the driver is to do in this state.
    pub open spec fn action(self) -> RelayAction {
        if !(self.status is Running) {
            RelayAction::Stop
        } else if self.pending.len() == 0 {
            RelayAction::Read
        } else {
            RelayAction::Write
        }
    }

    /// Whether `event` can be the outcome of the action that this state asks
    /// for. A read cannot produce more than the buffer holds, a write cannot
    /// accept more than it was offered, and a relay that has ended accepts
    /// nothing.
    pub open spec fn accepts(self, event: RelayEvent) -> bool {
        match event {
            RelayEvent::ReadCompleted(n) => self.action() is Read && n <= self.buffer.len(),
            RelayEvent::ReadFailed => self.action() is Read,
            RelayEvent::WriteCompleted(n) => self.action() is Write && n <= self.pending.len(),
            RelayEvent::WriteInterrupted => self.action() is Write,
            RelayEvent::WriteFailed => self.action() is Write,
        }
    }

    /// The state after `event`.
    ///
    /// - A read of zero bytes is the end of the stream: the relay is done.
    /// - A read of `n` bytes makes the first `n` bytes of the buffer pending.
    /// - A write of zero bytes fails the relay.
    /// - A write of `n` bytes moves the first `n` pending bytes to the
    ///   delivered ones; the rest stay pending.
    /// - An interrupted write changes nothing.
    /// - A failed read or write fails the relay.
    pub open spec fn step(self, event: RelayEvent) -> RelayModel {
        match event {
            RelayEvent::ReadCompleted(n) => if n == 0 {
                RelayModel { status: RelayStatus::Done, ..self }
            } else {
                RelayModel {
                    pending: self.buffer.take(n as int),
                    received: self.received + self.buffer.take(n as int),
                    ..self
                }
            },
            RelayEvent::ReadFailed => RelayModel {
                status: RelayStatus::Failed(RelayError::Read),
                ..self
            },
            RelayEvent::WriteCompleted(n) => if n == 0 {
                RelayModel { status: RelayStatus::Failed(RelayError::WriteZero), ..self }
            } else {
                RelayModel {
                    pending: self.pending.skip(n as int),
                    delivered: self.delivered + self.pending.take(n as int),
                    ..self
                }
            },
            RelayEvent::WriteInterrupted => self,
            RelayEvent::WriteFailed => RelayModel {
                status: RelayStatus::Failed(RelayError::Write),
                ..self
            },
        }
    }

    /// The state after the driver has filled the buffer with `bytes`.
    pub open spec fn refill(self, bytes: Seq<u8>) -> RelayModel {
        RelayModel { buffer: bytes, ..self }
    }
}

/// One relay task: a buffer, the part of it that is still to be written, and
/// the status of the task.
pub struct Relay {
    buffer: Buffer,
    start: usize,
    end: usize,
    status: RelayStatus,
    received: Ghost<Seq<u8>>,
    delivered: Ghost<Seq<u8>>,
}

impl View for Relay {
    type V = RelayModel;

    closed spec fn view(&self) -> RelayModel {
        RelayModel {
            status: self.status,
            buffer: self.buffer@,
            pending: if self.start == self.end {
                Seq::empty()
            } else {
                self.buffer@.subrange(self.start as int, self.end as int)
            },
            received: self.received@,
            delivered: self.delivered@,
        }
    }
}

impl Relay {
    /// The pending bytes are a part of the buffer, and start at its front
    /// whenever there are none.
    pub closed spec fn layout_ok(&self) -> bool {
        &&& self.start <= self.end <= self.buffer@.len()
        &&& self.start == self.end ==> self.start == 0
    }

    /// The validity of a relay.
    pub open spec fn wf(&self) -> bool {
        &&& self.layout_ok()
        &&& self@.consistent()
    }

    /// A relay with a buffer of `buffer_size` bytes that has moved nothing
    /// yet.
    pub fn new(buffer_size: usize) -> (relay: Relay)
        requires
            buffer_size > 0,
        ensures
            relay.wf(),
            relay@ == RelayModel::initial(zeroed(buffer_size as nat)),
    {
        let relay = Relay {
            buffer: Buffer::new(buffer_size),
            start: 0,
            end: 0,
            status: RelayStatus::Running,
            received: Ghost(Seq::empty()),
            delivered: Ghost(Seq::empty()),
        };
        assert(relay@.received =~= relay@.delivered + relay@.pending);
        relay
    }

    /// Where the relay stands in its life.
    pub fn status(&self) -> (status: RelayStatus)
        ensures
            status == self@.status,
    {
        self.status
    }

    /// The size of the buffer.
    pub fn capacity(&self) -> (n: usize)
        ensures
            n == self@.buffer.len(),
    {
        self.buffer.capacity()
    }

    /// What the driver is to do next.
    pub fn action(&self) -> (action: RelayAction)
        requires
            self.wf(),
        ensures
            action == self@.action(),
    {
        match self.status {
            RelayStatus::Running => if self.start == self.end {
                RelayAction::Read
            } else {
                RelayAction::Write
            },
            _ => RelayAction::Stop,
        }
    }

    /// The buffer, to read into. It is lent out only while the relay asks for
    /// a read, so that pending bytes are never overwritten.
    pub fn read_slot(&mut self) -> (slot: Option<&mut [u8]>)
        requires
            old(self).wf(),
        ensures
            slot is Some <==> old(self)@.action() is Read,
            slot is Some ==> {
                &&& slot.unwrap()@ == old(self)@.buffer
                &&& final(self)@ == old(self)@.refill(final(slot.unwrap())@)
                &&& final(self).wf()
            },
            slot is None ==> *final(self) == *old(self),
    {
        match self.status {
            RelayStatus::Running => if self.start == self.end {
                Some(self.buffer.as_mut_slice())
            } else {
                None
            },
            _ => None,
        }
    }

    /// The bytes to offer to the write half.
    pub fn pending(&self) -> (bytes: &[u8])
        requires
            self.wf(),
        ensures
            bytes@ == self@.pending,
    {
        self.buffer.window(self.start, self.end)
    }

    /// Whether `event` can be reported now.
    pub fn accepts(&self, event: RelayEvent) -> (ok: bool)
        requires
            self.wf(),
        ensures
            ok == self@.accepts(event),
    {
        let action = self.action();
        match event {
            RelayEvent::ReadCompleted(n) => action == RelayAction::Read && n
                <= self.buffer.capacity(),
            RelayEvent::ReadFailed => action == RelayAction::Read,
            RelayEvent::WriteCompleted(n) => action == RelayAction::Write && n <= self.end
                - self.start,
            RelayEvent::WriteInterrupted => action == RelayAction::Write,
            RelayEvent::WriteFailed => action == RelayAction::Write,
        }
    }

    /// Takes in the outcome of the action last asked for, and says what to do
    /// next.
    pub fn step(&mut self, event: RelayEvent) -> (action: RelayAction)
        requires
            old(self).wf(),
            old(self)@.accepts(event),
        ensures
            final(self).wf(),
            final(self)@ == old(self)@.step(event),
            action == final(self)@.action(),
    {
        match event {
            RelayEvent::ReadCompleted(n) => {
                if n == 0 {
                    self.status = RelayStatus::Done;
                } else {
                    self.start = 0;
                    self.end = n;
                    self.received = Ghost(self.received@ + self.buffer@.take(n as int));
                }
            },
            RelayEvent::ReadFailed => {
                self.status = RelayStatus::Failed(RelayError::Read);
            },
            RelayEvent::WriteCompleted(n) => {
                if n == 0 {
                    self.status = RelayStatus::Failed(RelayError::WriteZero);
                } else {
                    let ghost chunk = self@.pending.take(n as int);
                    self.delivered = Ghost(self.delivered@ + chunk);
                    if n == self.end - self.start {
                        self.start = 0;
                        self.end = 0;
                    } else {
                        self.start = self.start + n;
                    }
                }
            },
            RelayEvent::WriteInterrupted => {},
            RelayEvent::WriteFailed => {
                self.status = RelayStatus::Failed(RelayError::Write);
            },
        }
        proof {
            let before = old(self)@;
            let after = self@;
            let expected = before.step(event);
            assert(after.pending =~= expected.pending);
            assert(after.received =~= expected.received);
            assert(after.delivered =~= expected.delivered);
            assert(after.received =~= after.delivered + after.pending);
        }
        self.action()
    }
}

/// One thing that happens to a relay: its driver fills the buffer, or reports
/// the outcome of a read or a write.
pub enum RelayInput {
    /// The driver has filled the buffer with these bytes.
    Fill(Seq<u8>),
    /// The driver reports this event.
    Report(RelayEvent),
}

impl RelayModel {
    /// Whether `input` can happen in this state: the buffer is filled only
    /// while a read is asked for, and an event is reported only where
    /// [`RelayModel::accepts`] allows it.
    pub open spec fn admits(self, input: RelayInput) -> bool {
        match input {
            RelayInput::Fill(bytes) => self.action() is Read,
            RelayInput::Report(event) => self.accepts(event),
        }
    }

    /// The state after `input`.
    pub open spec fn apply(self, input: RelayInput) -> RelayModel {
        match input {
            RelayInput::Fill(bytes) => self.refill(bytes),
            RelayInput::Report(event) => self.step(event),
        }
    }

    /// Whether `inputs` can happen one after another, starting in this state.
    pub open spec fn admits_all(self, inputs: Seq<RelayInput>) -> bool
        decreases inputs.len(),
    {
        inputs.len() == 0 || {
            &&& self.admits(inputs[0])
            &&& self.apply(inputs[0]).admits_all(inputs.drop_first())
        }
    }

    /// The state after `inputs` have happened one after another.
    pub open spec fn run(self, inputs: Seq<RelayInput>) -> RelayModel
        decreases inputs.len(),
    {
        if inputs.len() == 0 {
            self
        } else {
            self.apply(inputs[0]).run(inputs.drop_first())
        }
    }
}

/// A relay that has moved nothing yet is consistent, whatever its buffer.
pub proof fn lemma_initial_consistent(buffer: Seq<u8>)
    ensures
        RelayModel::initial(buffer).consistent(),
{
    let start = RelayModel::initial(buffer);
    assert(start.received =~= start.delivered + start.pending);
}

/// No input that a consistent relay admits makes it inconsistent.
pub proof fn lemma_apply_consistent(state: RelayModel, input: RelayInput)
    requires
        state.consistent(),
        state.admits(input),
    ensures
        state.apply(input).consistent(),
{
    let next = state.apply(input);
    match input {
        RelayInput::Fill(bytes) => {
            assert(state.pending =~= Seq::<u8>::empty());
        },
        RelayInput::Report(event) => {
            match event {
                RelayEvent::ReadCompleted(n) => {
                    assert(state.pending =~= Seq::<u8>::empty());
                    assert(next.received =~= next.delivered + next.pending);
                },
                RelayEvent::WriteCompleted(n) => {
                    assert(state.pending =~= state.pending.take(n as int) + state.pending.skip(
                        n as int,
                    ));
                    assert(next.received =~= next.delivered + next.pending);
                },
                _ => {},
            }
        },
    }
}

/// A consistent relay stays consistent through every run that it admits.
pub proof fn lemma_run_consistent(state: RelayModel, inputs: Seq<RelayInput>)
    requires
        state.consistent(),
        state.admits_all(inputs),
    ensures
        state.run(inputs).consistent(),
    decreases inputs.len(),
{
    if inputs.len() > 0 {
        lemma_apply_consistent(state, inputs[0]);
        lemma_run_consistent(state.apply(inputs[0]), inputs.drop_first());
    }
}

/// Fidelity. Start a relay with any buffer and drive it in any way that it
/// admits: with reads of any sizes, with writes that accept as little as one
/// byte at a time, with interruptions and failures. Then at every moment the
/// bytes that the write half has accepted are the first of the bytes that the
/// read half has produced, in the same order and with the same values. Once
/// the relay is done, they are all of them.
pub proof fn lemma_fidelity(buffer: Seq<u8>, inputs: Seq<RelayInput>)
    requires
        RelayModel::initial(buffer).admits_all(inputs),
    ensures
        RelayModel::initial(buffer).run(inputs).delivered.is_prefix_of(
            RelayModel::initial(buffer).run(inputs).received,
        ),
        RelayModel::initial(buffer).run(inputs).status is Done ==> RelayModel::initial(buffer).run(
            inputs,
        ).delivered == RelayModel::initial(buffer).run(inputs).received,
{
    lemma_initial_consistent(buffer);
    lemma_run_consistent(RelayModel::initial(buffer), inputs);
    lemma_consistent_fidelity(RelayModel::initial(buffer).run(inputs));
}

/// Fidelity, of one state: in a consistent relay the bytes delivered are the
/// first of the bytes received, and all of them once the relay is done.
pub proof fn lemma_consistent_fidelity(state: RelayModel)
    requires
        state.consistent(),
    ensures
        state.delivered.is_prefix_of(state.received),
        state.status is Done ==> state.delivered == state.received,
{
    assert(state.delivered =~= state.received.subrange(0, state.delivered.len() as int));
    if state.status is Done {
        assert(state.received =~= state.delivered);
    }
}

/// Partial writes. When the write half accepts fewer bytes than it was
/// offered, the relay asks for another write, not for a read. The bytes that
/// were accepted count as delivered, once; the rest stay pending, in order;
/// nothing is read in between.
pub proof fn lemma_partial_write(state: RelayModel, n: usize)
    requires
        state.consistent(),
        state.accepts(RelayEvent::WriteCompleted(n)),
        0 < n < state.pending.len(),
    ensures
        state.step(RelayEvent::WriteCompleted(n)).action() is Write,
        state.step(RelayEvent::WriteCompleted(n)).delivered == state.delivered
            + state.pending.take(n as int),
        state.step(RelayEvent::WriteCompleted(n)).pending == state.pending.skip(n as int),
        state.step(RelayEvent::WriteCompleted(n)).received == state.received,
        state.step(RelayEvent::WriteCompleted(n)).delivered
            + state.step(RelayEvent::WriteCompleted(n)).pending == state.received,
{
    lemma_apply_consistent(state, RelayInput::Report(RelayEvent::WriteCompleted(n)));
}

/// A relay asks for a read only when every byte that it has received was
/// delivered: no chunk is overtaken by the next one.
pub proof fn lemma_read_follows_delivery(state: RelayModel)
    requires
        state.consistent(),
        state.action() is Read,
    ensures
        state.delivered == state.received,
{
    assert(state.pending =~= Seq::<u8>::empty());
    assert(state.received =~= state.delivered);
}

/// A relay that has ended stays as it is: it admits no further input, so
/// `Done` and `Failed` are never left.
pub proof fn lemma_ended_is_final(state: RelayModel, inputs: Seq<RelayInput>)
    requires
        !(state.status is Running),
        state.admits_all(inputs),
    ensures
        inputs.len() == 0,
        state.run(inputs) == state,
{
}

/// Buffer-size invariance. Take two relays with buffers of any two sizes,
/// each driven in its own way to the end of its stream. If the two read
/// halves produced the same bytes, the two write halves accepted the same
/// bytes: the size of the buffer decides how the bytes are cut into chunks
/// and nothing else.
pub proof fn lemma_buffer_size_invariance(
    buffer_a: Seq<u8>,
    inputs_a: Seq<RelayInput>,
    buffer_b: Seq<u8>,
    inputs_b: Seq<RelayInput>,
)
    requires
        RelayModel::initial(buffer_a).admits_all(inputs_a),
        RelayModel::initial(buffer_b).admits_all(inputs_b),
        RelayModel::initial(buffer_a).run(inputs_a).status is Done,
        RelayModel::initial(buffer_b).run(inputs_b).status is Done,
        RelayModel::initial(buffer_a).run(inputs_a).received == RelayModel::initial(buffer_b).run(
            inputs_b,
        ).received,
    ensures
        RelayModel::initial(buffer_a).run(inputs_a).delivered == RelayModel::initial(
            buffer_b,
        ).run(inputs_b).delivered,
{
    lemma_fidelity(buffer_a, inputs_a);
    lemma_fidelity(buffer_b, inputs_b);
}

/// The inputs of one complete transfer of `payload` through a relay whose
/// buffer holds `buffer`: as long as payload is left, the driver fills the
/// front of the buffer with as much of it as fits, reports the read, and
/// reports a write that accepted all of it; then it reports the end of the
/// stream.
pub open spec fn transfer(buffer: Seq<u8>, payload: Seq<u8>) -> Seq<RelayInput>
    decreases payload.len(),
{
    if payload.len() == 0 || buffer.len() == 0 {
        seq![RelayInput::Report(RelayEvent::ReadCompleted(0))]
    } else {
        let n = if payload.len() < buffer.len() {
            payload.len()
        } else {
            buffer.len()
        };
        let filled = payload.take(n as int) + buffer.skip(n as int);
        seq![RelayInput::Fill(filled)] + (seq![
            RelayInput::Report(RelayEvent::ReadCompleted(n as usize)),
        ] + (seq![RelayInput::Report(RelayEvent::WriteCompleted(n as usize))] + transfer(
            filled,
            payload.skip(n as int),
        )))
    }
}

/// A run that begins with `input` is admitted where `input` is and the rest
/// is admitted after it, and ends where the rest ends after it.
proof fn lemma_run_prepend(state: RelayModel, input: RelayInput, rest: Seq<RelayInput>)
    ensures
        state.admits_all(seq![input] + rest) == (state.admits(input) && state.apply(
            input,
        ).admits_all(rest)),
        state.run(seq![input] + rest) == state.apply(input).run(rest),
{
    let inputs = seq![input] + rest;
    assert(inputs[0] == input);
    assert(inputs.drop_first() =~= rest);
}

/// A relay that asks for a read admits the complete transfer of any payload,
/// and ends it done, with the payload added to what it had received and to
/// what it had delivered.
proof fn lemma_transfer_from(state: RelayModel, payload: Seq<u8>)
    requires
        state.consistent(),
        state.action() is Read,
        0 < state.buffer.len() <= usize::MAX,
    ensures
        state.admits_all(transfer(state.buffer, payload)),
        state.run(transfer(state.buffer, payload)).status is Done,
        state.run(transfer(state.buffer, payload)).received == state.received + payload,
        state.run(transfer(state.buffer, payload)).delivered == state.delivered + payload,
    decreases payload.len(),
{
    let inputs = transfer(state.buffer, payload);
    if payload.len() == 0 {
        let end = RelayInput::Report(RelayEvent::ReadCompleted(0));
        assert(inputs =~= seq![end] + Seq::<RelayInput>::empty());
        lemma_run_prepend(state, end, Seq::empty());
        assert(state.received + payload =~= state.received);
        assert(state.delivered + payload =~= state.delivered);
    } else {
        let n = if payload.len() < state.buffer.len() {
            payload.len()
        } else {
            state.buffer.len()
        };
        let chunk = payload.take(n as int);
        let rest = payload.skip(n as int);
        let filled = chunk + state.buffer.skip(n as int);
        let fill = RelayInput::Fill(filled);
        let read = RelayInput::Report(RelayEvent::ReadCompleted(n as usize));
        let write = RelayInput::Report(RelayEvent::WriteCompleted(n as usize));
        let tail = transfer(filled, rest);
        let after_fill = state.apply(fill);
        let after_read = after_fill.apply(read);
        let after_write = after_read.apply(write);

        assert(filled.len() == state.buffer.len());
        assert(filled.take(n as int) =~= chunk);
        assert(state.pending =~= Seq::<u8>::empty());
        lemma_apply_consistent(state, fill);
        lemma_apply_consistent(after_fill, read);
        assert(after_read.pending == chunk);
        lemma_apply_consistent(after_read, write);
        assert(chunk.skip(n as int) =~= Seq::<u8>::empty());
        assert(chunk.take(n as int) =~= chunk);
        assert(after_write.pending =~= Seq::<u8>::empty());
        assert(after_write.buffer == filled);

        lemma_transfer_from(after_write, rest);

        lemma_run_prepend(after_read, write, tail);
        lemma_run_prepend(after_fill, read, seq![write] + tail);
        lemma_run_prepend(state, fill, seq![read] + (seq![write] + tail));

        assert(payload =~= chunk + rest);
        assert(state.received + payload =~= (state.received + chunk) + rest);
        assert(state.delivered + payload =~= (state.delivered + chunk) + rest);
    }
}

/// Every buffer size serves. A relay with a buffer of any size from one byte
/// up admits a complete transfer of any payload, and that transfer ends with
/// the relay done and with exactly the payload delivered: a small buffer
/// takes more chunks and loses nothing.
pub proof fn lemma_every_buffer_size_delivers(buffer: Seq<u8>, payload: Seq<u8>)
    requires
        0 < buffer.len() <= usize::MAX,
    ensures
        RelayModel::initial(buffer).admits_all(transfer(buffer, payload)),
        RelayModel::initial(buffer).run(transfer(buffer, payload)).status is Done,
        RelayModel::initial(buffer).run(transfer(buffer, payload)).received == payload,
        RelayModel::initial(buffer).run(transfer(buffer, payload)).delivered == payload,
{
    let start = RelayModel::initial(buffer);
    lemma_initial_consistent(buffer);
    lemma_transfer_from(start, payload);
    assert(start.received + payload =~= payload);
    assert(start.delivered + payload =~= payload);
}

} // verus!
