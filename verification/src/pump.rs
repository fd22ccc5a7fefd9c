//! The two pumps of a session, as decisions: what the worker that reads
//! the PTY does with each read, and what the worker that writes the PTY
//! does with each event on the input queue.

use vstd::prelude::*;

verus! {

/// How many bytes the output pump reads from the PTY at most at a time.
pub const READ_BUFFER_SIZE: usize = 4096;

/// How many chunks may wait between the output pump and the emulator.
pub const PARSER_FEED_CAPACITY: usize = 256;

/// How a read from the PTY ended.
#[derive(Debug, Clone, Copy, PartialEq, Eq, Structural)]
pub enum ReadOutcome {
    /// The read returned this many bytes.
    Read(usize),
    /// The read failed.
    Failed,
}

/// Why a pump ends.
#[derive(Debug, Clone, Copy, PartialEq, Eq, Structural)]
pub enum StopReason {
    /// The PTY has no more output: the shell has exited.
    Eof,
    /// A read from the PTY failed.
    ReadError,
    /// A write to the PTY failed.
    WriteError,
    /// The input queue is closed.
    QueueClosed,
}

/// What a chunk of output is delivered to.
#[derive(Debug, Clone, Copy, PartialEq, Eq, Structural)]
pub enum Sink {
    /// The local standard output, written and flushed.
    Stdout,
    /// The broadcast to remote subscribers, which may drop for the slow.
    Broker,
    /// The emulator's queue, which is waited for when it is full.
    Parser,
    /// The activity tracker.
    Activity,
}

/// What the output pump does after a read.
#[derive(Debug, Clone, Copy, PartialEq, Eq, Structural)]
pub enum OutputStep {
    /// Deliver the first bytes of the buffer, this many, to every sink in
    /// order, then read again.
    Deliver(usize),
    /// End the pump.
    Stop(StopReason),
}

/// What the output pump does after a read: a read of nothing is the end
/// of the output, a failed read ends the pump too, and anything else is
/// delivered.
pub fn output_step(outcome: ReadOutcome) -> (step: OutputStep)
    ensures
        step == match outcome {
            ReadOutcome::Read(n) => if n == 0 {
                OutputStep::Stop(StopReason::Eof)
            } else {
                OutputStep::Deliver(n)
            },
            ReadOutcome::Failed => OutputStep::Stop(StopReason::ReadError),
        },
{
    match outcome {
        ReadOutcome::Read(n) => {
            if n == 0 {
                OutputStep::Stop(StopReason::Eof)
            } else {
                OutputStep::Deliver(n)
            }
        },
        ReadOutcome::Failed => OutputStep::Stop(StopReason::ReadError),
    }
}

/// The order in which a chunk of output reaches its sinks.
pub open spec fn delivery_sequence() -> Seq<Sink> {
    seq![Sink::Stdout, Sink::Broker, Sink::Parser, Sink::Activity]
}

/// The sinks of a chunk of output, in the order of delivery: standard
/// output first, then the broadcast, then the emulator, and the activity
/// tracker last.
pub fn delivery_order() -> (order: [Sink; 4])
    ensures
        order@ == delivery_sequence(),
{
    let order = [Sink::Stdout, Sink::Broker, Sink::Parser, Sink::Activity];
    proof {
        assert(order@ =~= delivery_sequence());
    }
    order
}

/// What happened at the input pump.
#[derive(Debug, Clone, Copy, PartialEq, Eq, Structural)]
pub enum InputEvent {
    /// A chunk arrived on the input queue.
    Chunk,
    /// The input queue was closed.
    Closed,
    /// Writing a chunk to the PTY failed.
    WriteFailed,
}

/// What the input pump does next.
#[derive(Debug, Clone, Copy, PartialEq, Eq, Structural)]
pub enum InputStep {
    /// Write the whole chunk to the PTY and flush.
    WriteAndFlush,
    /// End the pump.
    Stop(StopReason),
}

/// What the input pump does next: a chunk is written whole and flushed, a
/// failed write or a closed queue ends the pump.
pub fn input_step(event: InputEvent) -> (step: InputStep)
    ensures
        step == match event {
            InputEvent::Chunk => InputStep::WriteAndFlush,
            InputEvent::Closed => InputStep::Stop(StopReason::QueueClosed),
            InputEvent::WriteFailed => InputStep::Stop(StopReason::WriteError),
        },
{
    match event {
        InputEvent::Chunk => InputStep::WriteAndFlush,
        InputEvent::Closed => InputStep::Stop(StopReason::QueueClosed),
        InputEvent::WriteFailed => InputStep::Stop(StopReason::WriteError),
    }
}

} // verus!
