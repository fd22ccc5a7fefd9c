//! The terminal emulator's wiring: what it is asked, what it answers, and
//! which events it emits when its state changes.

pub mod changes;
pub mod engine;
pub mod events;
pub mod format;
pub mod replay;
pub mod state;
pub mod task;
pub mod vt;

use vstd::prelude::*;
use events::Event;
use state::QueryResponse;

verus! {

/// Why a query got no answer.
#[derive(Debug, Clone, PartialEq, Eq)]
pub enum ParserError {
    /// The emulator task is gone, or can no longer number its events.
    TaskDied,
    /// The query queue is full.
    ChannelFull,
    /// No answer came within the time allowed.
    QueryTimeout,
    /// The query's parameters describe no possible state.
    InvalidQuery(String),
}

impl ParserError {
    /// A description of the error.
    pub fn message(&self) -> (text: String)
        ensures
            self is TaskDied ==> text@ == "parser task died unexpectedly"@,
            self is ChannelFull ==> text@ == "query channel full"@,
            self is QueryTimeout ==> text@ == "parser query timed out"@,
            self is InvalidQuery ==> text@ == "invalid query parameters: "@ + self->InvalidQuery_0@,
    {
        match self {
            ParserError::TaskDied => "parser task died unexpectedly".to_owned(),
            ParserError::ChannelFull => "query channel full".to_owned(),
            ParserError::QueryTimeout => "parser query timed out".to_owned(),
            ParserError::InvalidQuery(why) => {
                let mut text = "invalid query parameters: ".to_owned();
                text.append(why.as_str());
                text
            },
        }
    }
}

/// How long a query may wait for its answer, in seconds.
pub const QUERY_TIMEOUT_SECS: u64 = 5;

/// How many events the event channel keeps for its slowest subscriber.
pub const EVENT_CAPACITY: usize = 256;

/// How many queries may wait for the emulator task.
pub const QUERY_CAPACITY: usize = 32;

/// How the wait for an answer ended.
#[derive(Debug, Clone, PartialEq, Eq)]
pub enum QueryWait {
    /// The query could not be handed to the emulator task.
    NotSent,
    /// The time allowed ran out first.
    TimedOut,
    /// The emulator task dropped the query without answering.
    Dropped,
    /// The emulator task refused the query, for the reason given.
    Refused(ParserError),
    /// The answer.
    Answered(QueryResponse),
}

/// What the caller of a query gets for each way the wait can end: the
/// answer, the task's refusal, a timeout, or the news that the task died.
pub fn query_outcome(wait: QueryWait) -> (outcome: Result<QueryResponse, ParserError>)
    ensures
        match wait {
            QueryWait::Answered(response) => outcome == Ok::<QueryResponse, ParserError>(response),
            QueryWait::Refused(error) => outcome == Err::<QueryResponse, ParserError>(error),
            QueryWait::TimedOut => outcome == Err::<QueryResponse, ParserError>(
                ParserError::QueryTimeout,
            ),
            QueryWait::NotSent | QueryWait::Dropped => outcome == Err::<
                QueryResponse,
                ParserError,
            >(ParserError::TaskDied),
        },
{
    match wait {
        QueryWait::Answered(response) => Ok(response),
        QueryWait::Refused(error) => Err(error),
        QueryWait::TimedOut => Err(ParserError::QueryTimeout),
        QueryWait::NotSent => Err(ParserError::TaskDied),
        QueryWait::Dropped => Err(ParserError::TaskDied),
    }
}

/// What the emulator task does after the engine has served a chunk or a
/// query.
#[derive(Debug, Clone, Copy, PartialEq, Eq, Structural)]
pub enum TaskStep {
    /// Serve the next chunk or query.
    GoOn,
    /// The engine can number no more events in this epoch: start a new
    /// epoch with a fresh emulator.
    Restart,
}

/// What the emulator task does after the engine has served a chunk or a
/// query: it restarts the engine if the engine reports the task as dead,
/// and goes on after a success and after any other refusal.
pub fn task_step<T>(served: &Result<T, ParserError>) -> (step: TaskStep)
    ensures
        step == TaskStep::Restart <==> served is Err && served->Err_0 is TaskDied,
        step == TaskStep::GoOn <==> !(served is Err && served->Err_0 is TaskDied),
{
    match served {
        Err(ParserError::TaskDied) => TaskStep::Restart,
        _ => TaskStep::GoOn,
    }
}

/// What a subscriber receives: an event, or the news that it fell behind
/// and how many events it missed.
#[derive(Debug, Clone, PartialEq, Eq)]
pub enum SubscriptionEvent {
    Event(Event),
    Lagged(u64),
}

/// What a subscriber is told for one receipt from the event channel: the
/// event itself, or, where the channel reports a gap, the size of the gap.
pub fn subscription_event(received: Result<Event, u64>) -> (item: SubscriptionEvent)
    ensures
        match received {
            Ok(event) => item == SubscriptionEvent::Event(event),
            Err(skipped) => item == SubscriptionEvent::Lagged(skipped),
        },
{
    match received {
        Ok(event) => SubscriptionEvent::Event(event),
        Err(skipped) => SubscriptionEvent::Lagged(skipped),
    }
}

} // verus!
