//! Change events of the emulator and the subscription that selects them.

use vstd::prelude::*;
use super::format::line_in_format;
use super::state::{Format, FormattedLine, LineModel, ScreenModel, ScreenResponse};

verus! {

/// Why subscribers must discard what they know of the screen.
#[derive(Debug, Clone, Copy, PartialEq, Eq, Structural)]
pub enum ResetReason {
    ClearScreen,
    ClearScrollback,
    HardReset,
    AlternateScreenEnter,
    AlternateScreenExit,
    Resize,
    ParserRestart,
}

/// A change event, as a mathematical value.
pub enum EventModel {
    Line { seq: u64, index: usize, line: LineModel, total_lines: usize },
    Cursor { seq: u64, row: usize, col: usize, visible: bool },
    Mode { seq: u64, alternate_active: bool },
    Reset { seq: u64, reason: ResetReason },
    Sync { seq: u64, screen: ScreenModel, scrollback_lines: usize },
    Diff { seq: u64, changed_lines: Seq<usize>, screen: ScreenModel },
}

impl EventModel {
    /// The event with its line, if it has one, in the given format. Events
    /// without a line of their own stay as they are.
    pub open spec fn in_format(self, styled: bool) -> EventModel {
        match self {
            EventModel::Line { seq, index, line, total_lines } => EventModel::Line {
                seq,
                index,
                line: line_in_format(line, styled),
                total_lines,
            },
            _ => self,
        }
    }

    /// The kind under which a subscriber selects the event. Resets and full
    /// copies are of no kind: they reach every subscriber, who could not
    /// follow the screen without them.
    pub open spec fn kind(self) -> Option<EventType> {
        match self {
            EventModel::Line { .. } => Some(EventType::Lines),
            EventModel::Cursor { .. } => Some(EventType::Cursor),
            EventModel::Mode { .. } => Some(EventType::Mode),
            EventModel::Diff { .. } => Some(EventType::Diffs),
            EventModel::Reset { .. } => None,
            EventModel::Sync { .. } => None,
        }
    }

    /// The event's sequence number.
    pub open spec fn seq(self) -> u64 {
        match self {
            EventModel::Line { seq, .. } => seq,
            EventModel::Cursor { seq, .. } => seq,
            EventModel::Mode { seq, .. } => seq,
            EventModel::Reset { seq, .. } => seq,
            EventModel::Sync { seq, .. } => seq,
            EventModel::Diff { seq, .. } => seq,
        }
    }
}

/// A change of the emulator's state. Every event carries a sequence number
/// that grows from one event to the next.
#[derive(Debug, Clone, PartialEq, Eq)]
pub enum Event {
    /// One visible row changed; `index` is its row on the screen.
    Line { seq: u64, index: usize, line: FormattedLine, total_lines: usize },
    /// The cursor moved or its visibility changed.
    Cursor { seq: u64, row: usize, col: usize, visible: bool },
    /// The active screen changed between primary and alternate.
    Mode { seq: u64, alternate_active: bool },
    /// What subscribers know of the screen is no longer valid.
    Reset { seq: u64, reason: ResetReason },
    /// A full copy of the screen.
    Sync { seq: u64, screen: ScreenResponse, scrollback_lines: usize },
    /// The rows that changed, with the screen after the change.
    Diff { seq: u64, changed_lines: Vec<usize>, screen: ScreenResponse },
}

impl View for Event {
    type V = EventModel;

    open spec fn view(&self) -> EventModel {
        match self {
            Event::Line { seq, index, line, total_lines } => EventModel::Line {
                seq: *seq,
                index: *index,
                line: line@,
                total_lines: *total_lines,
            },
            Event::Cursor { seq, row, col, visible } => EventModel::Cursor {
                seq: *seq,
                row: *row,
                col: *col,
                visible: *visible,
            },
            Event::Mode { seq, alternate_active } => EventModel::Mode {
                seq: *seq,
                alternate_active: *alternate_active,
            },
            Event::Reset { seq, reason } => EventModel::Reset { seq: *seq, reason: *reason },
            Event::Sync { seq, screen, scrollback_lines } => EventModel::Sync {
                seq: *seq,
                screen: screen@,
                scrollback_lines: *scrollback_lines,
            },
            Event::Diff { seq, changed_lines, screen } => EventModel::Diff {
                seq: *seq,
                changed_lines: changed_lines@,
                screen: screen@,
            },
        }
    }
}

impl Event {
    /// The event with its line, if it has one, in the given format.
    pub fn in_format(self, format: Format) -> (event: Event)
        ensures
            event@ == self@.in_format(format == Format::Styled),
    {
        match self {
            Event::Line { seq, index, line, total_lines } => Event::Line {
                seq,
                index,
                line: line.in_format(format),
                total_lines,
            },
            other => other,
        }
    }

    /// The kind under which a subscriber selects the event, if it is of one.
    pub fn kind(&self) -> (kind: Option<EventType>)
        ensures
            kind == self@.kind(),
    {
        match self {
            Event::Line { .. } => Some(EventType::Lines),
            Event::Cursor { .. } => Some(EventType::Cursor),
            Event::Mode { .. } => Some(EventType::Mode),
            Event::Diff { .. } => Some(EventType::Diffs),
            Event::Reset { .. } => None,
            Event::Sync { .. } => None,
        }
    }

    /// The event's sequence number.
    pub fn seq(&self) -> (seq: u64)
        ensures
            seq == self@.seq(),
    {
        match self {
            Event::Line { seq, .. } => *seq,
            Event::Cursor { seq, .. } => *seq,
            Event::Mode { seq, .. } => *seq,
            Event::Reset { seq, .. } => *seq,
            Event::Sync { seq, .. } => *seq,
            Event::Diff { seq, .. } => *seq,
        }
    }
}

/// The models of a sequence of events.
pub open spec fn event_models(events: Seq<Event>) -> Seq<EventModel> {
    events.map_values(|e: Event| e@)
}

/// A kind of event that a subscriber may select.
#[derive(Debug, Clone, Copy, PartialEq, Eq, Structural)]
pub enum EventType {
    Lines,
    Chars,
    Cursor,
    Mode,
    Diffs,
}

/// The pacing hint, in milliseconds, of a subscription that names none.
pub fn default_interval() -> (interval_ms: u64)
    ensures
        interval_ms == 100,
{
    100
}

/// What a subscriber asks for: the kinds of events, a pacing hint in
/// milliseconds, and the line format.
#[derive(Debug, Clone)]
pub struct Subscribe {
    pub events: Vec<EventType>,
    pub interval_ms: u64,
    pub format: Format,
}

impl Subscribe {
    /// A subscription to the given kinds of events, with the default pacing
    /// hint and plain lines.
    pub fn new(events: Vec<EventType>) -> (sub: Subscribe)
        ensures
            sub.events == events,
            sub.interval_ms == 100,
            sub.format == Format::Plain,
    {
        Subscribe { events, interval_ms: default_interval(), format: Format::Plain }
    }

    /// Whether a kind of event was selected.
    pub open spec fn selects(self, kind: EventType) -> bool {
        self.events@.contains(kind)
    }

    /// Whether the subscription selects the given kind of event.
    pub fn wants(&self, kind: EventType) -> (wanted: bool)
        ensures
            wanted == self.selects(kind),
    {
        let mut i: usize = 0;
        while i < self.events.len()
            invariant
                i <= self.events.len(),
                forall|j: int| 0 <= j < i ==> self.events@[j] != kind,
            decreases self.events.len() - i,
        {
            if self.events[i] == kind {
                return true;
            }
            i += 1;
        }
        false
    }

    /// Whether an event of this model reaches the subscriber: if it is of
    /// no kind, or of a kind that was selected.
    pub open spec fn reaches(self, event: EventModel) -> bool {
        match event.kind() {
            Some(kind) => self.selects(kind),
            None => true,
        }
    }

    /// What the subscriber gets of an event: nothing if its kind was not
    /// selected, and else the event in the subscriber's format.
    pub fn deliver(&self, event: Event) -> (delivered: Option<Event>)
        ensures
            delivered is Some <==> self.reaches(event@),
            delivered is Some ==> delivered->Some_0@ == event@.in_format(
                self.format == Format::Styled,
            ),
    {
        let wanted = match event.kind() {
            Some(kind) => self.wants(kind),
            None => true,
        };
        if wanted {
            Some(event.in_format(self.format))
        } else {
            None
        }
    }
}

} // verus!
