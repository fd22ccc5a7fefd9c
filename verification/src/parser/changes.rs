//! Which events a change of the visible screen gives rise to.

use vstd::prelude::*;
use super::events::{Event, EventModel, ResetReason, event_models};
use super::format::{format_line, rendered};
use super::state::{Cell, Cursor, Format, Grid, GridModel, LineModel, row_models};
use super::vt::Operation;

verus! {

/// What subscribers see of the emulator, as a mathematical value.
pub struct FrameModel {
    pub cursor: Cursor,
    pub alternate_active: bool,
    pub total_lines: usize,
    pub rows: Seq<Seq<Cell>>,
}

/// What subscribers see of the emulator: the visible rows, the cursor, which
/// screen is active, and how many lines the buffer holds in all.
#[derive(Debug, Clone, PartialEq, Eq)]
pub struct Frame {
    pub cursor: Cursor,
    pub alternate_active: bool,
    pub total_lines: usize,
    pub rows: Vec<Vec<Cell>>,
}

impl View for Frame {
    type V = FrameModel;

    open spec fn view(&self) -> FrameModel {
        FrameModel {
            cursor: self.cursor,
            alternate_active: self.alternate_active,
            total_lines: self.total_lines,
            rows: row_models(self.rows@),
        }
    }
}

impl GridModel {
    /// The part of a grid that subscribers see.
    pub open spec fn frame(self) -> FrameModel {
        FrameModel {
            cursor: self.cursor,
            alternate_active: self.alternate_active,
            total_lines: self.lines.len() as usize,
            rows: self.visible(),
        }
    }
}

/// One difference between two frames, before it is given a sequence number.
pub enum Change {
    Mode { alternate_active: bool },
    Reset { reason: ResetReason },
    Line { index: usize, line: LineModel, total_lines: usize },
    Cursor { row: usize, col: usize, visible: bool },
}

impl Change {
    /// The event that reports this change under a sequence number.
    pub open spec fn at(self, seq: u64) -> EventModel {
        match self {
            Change::Mode { alternate_active } => EventModel::Mode { seq, alternate_active },
            Change::Reset { reason } => EventModel::Reset { seq, reason },
            Change::Line { index, line, total_lines } => EventModel::Line {
                seq,
                index,
                line,
                total_lines,
            },
            Change::Cursor { row, col, visible } => EventModel::Cursor { seq, row, col, visible },
        }
    }
}

/// What an operation of the emulator wipes, as far as subscribers must
/// know.
#[derive(Debug, Clone, Copy, PartialEq, Eq, Structural)]
pub enum Wipe {
    /// The whole screen is erased.
    Screen,
    /// The erasure of the history above the screen is asked for. The local
    /// terminal carries it out; the emulator may keep its own history, from
    /// which queries are still answered.
    Scrollback,
    /// The emulator is reset to its initial state.
    Everything,
    /// Nothing that calls for a reset.
    Nothing,
}

/// What an operation wipes: erasing the whole display wipes the screen,
/// erasing the saved lines wipes the history, a full reset wipes
/// everything, and no other operation wipes.
pub open spec fn wipe_for(operation: Operation) -> Wipe {
    match operation {
        Operation::EraseDisplay => Wipe::Screen,
        Operation::EraseSavedLines => Wipe::Scrollback,
        Operation::FullReset => Wipe::Everything,
        Operation::Other => Wipe::Nothing,
    }
}

/// What an operation wipes.
pub fn wipe_of(operation: Operation) -> (wipe: Wipe)
    ensures
        wipe == wipe_for(operation),
{
    match operation {
        Operation::EraseDisplay => Wipe::Screen,
        Operation::EraseSavedLines => Wipe::Scrollback,
        Operation::FullReset => Wipe::Everything,
        Operation::Other => Wipe::Nothing,
    }
}

/// Which wipes a chunk of output held. However often a wipe occurs in one
/// chunk, it is noted once.
#[derive(Debug, Clone, Copy, PartialEq, Eq, Structural)]
pub struct Wipes {
    pub screen: bool,
    pub scrollback: bool,
    pub everything: bool,
}

impl Wipes {
    /// No wipe.
    pub open spec fn nothing() -> Wipes {
        Wipes { screen: false, scrollback: false, everything: false }
    }

    /// The wipes with one more noted.
    pub open spec fn with(self, wipe: Wipe) -> Wipes {
        match wipe {
            Wipe::Screen => Wipes { screen: true, ..self },
            Wipe::Scrollback => Wipes { scrollback: true, ..self },
            Wipe::Everything => Wipes { everything: true, ..self },
            Wipe::Nothing => self,
        }
    }

    /// No wipe.
    pub fn none() -> (wipes: Wipes)
        ensures
            wipes == Wipes::nothing(),
    {
        Wipes { screen: false, scrollback: false, everything: false }
    }

    /// Notes one more wipe.
    pub fn note(self, wipe: Wipe) -> (wipes: Wipes)
        ensures
            wipes == self.with(wipe),
    {
        match wipe {
            Wipe::Screen => Wipes {
                screen: true,
                scrollback: self.scrollback,
                everything: self.everything,
            },
            Wipe::Scrollback => Wipes {
                screen: self.screen,
                scrollback: true,
                everything: self.everything,
            },
            Wipe::Everything => Wipes {
                screen: self.screen,
                scrollback: self.scrollback,
                everything: true,
            },
            Wipe::Nothing => self,
        }
    }
}

/// One reset for each kind of wipe that was noted: screen, then history,
/// then the whole emulator.
pub open spec fn wipe_changes(wipes: Wipes) -> Seq<Change> {
    (if wipes.screen {
        seq![Change::Reset { reason: ResetReason::ClearScreen }]
    } else {
        Seq::empty()
    }) + (if wipes.scrollback {
        seq![Change::Reset { reason: ResetReason::ClearScrollback }]
    } else {
        Seq::empty()
    }) + (if wipes.everything {
        seq![Change::Reset { reason: ResetReason::HardReset }]
    } else {
        Seq::empty()
    })
}

/// A switch between primary and alternate screen is reported by a mode
/// change followed by a reset that names the direction.
pub open spec fn screen_changes(pre: FrameModel, post: FrameModel) -> Seq<Change> {
    if pre.alternate_active == post.alternate_active {
        Seq::empty()
    } else if post.alternate_active {
        seq![
            Change::Mode { alternate_active: true },
            Change::Reset { reason: ResetReason::AlternateScreenEnter },
        ]
    } else {
        seq![
            Change::Mode { alternate_active: false },
            Change::Reset { reason: ResetReason::AlternateScreenExit },
        ]
    }
}

/// Whether visible row `i` differs between the frames; a row that the
/// earlier frame lacks counts as changed.
pub open spec fn row_changed(pre: FrameModel, post: FrameModel, i: int) -> bool {
    i >= pre.rows.len() || pre.rows[i] != post.rows[i]
}

/// One line change for each changed row among the first `n` visible rows, in
/// row order.
pub open spec fn line_changes(pre: FrameModel, post: FrameModel, styled: bool, n: nat) -> Seq<
    Change,
>
    decreases n,
{
    if n == 0 {
        Seq::empty()
    } else if row_changed(pre, post, n - 1) {
        line_changes(pre, post, styled, (n - 1) as nat).push(
            Change::Line {
                index: (n - 1) as usize,
                line: rendered(post.rows[n - 1], styled),
                total_lines: post.total_lines,
            },
        )
    } else {
        line_changes(pre, post, styled, (n - 1) as nat)
    }
}

/// A cursor that moved, or was shown or hidden, is reported once.
pub open spec fn cursor_changes(pre: FrameModel, post: FrameModel) -> Seq<Change> {
    if pre.cursor == post.cursor {
        Seq::empty()
    } else {
        seq![
            Change::Cursor {
                row: post.cursor.row,
                col: post.cursor.col,
                visible: post.cursor.visible,
            },
        ]
    }
}

/// All that a step from one frame to the next reports: the screen switch
/// first, then the wipes, then the changed rows in row order, then the
/// cursor.
pub open spec fn changes(pre: FrameModel, post: FrameModel, wipes: Wipes, styled: bool) -> Seq<
    Change,
> {
    screen_changes(pre, post) + wipe_changes(wipes) + line_changes(
        pre,
        post,
        styled,
        post.rows.len(),
    ) + cursor_changes(pre, post)
}

/// The most events that one step can report beside one per visible row:
/// mode, its reset, three wipes, and the cursor.
pub const EXTRA_EVENTS: u64 = 6;

/// The events that report a sequence of changes: the first takes the number
/// after `last_seq`, and each later one the number after its predecessor's.
pub open spec fn numbered(changes: Seq<Change>, last_seq: u64) -> Seq<EventModel> {
    Seq::new(changes.len(), |i: int| changes[i].at((last_seq + 1 + i) as u64))
}

/// The events emitted when the frame `pre` has become the frame `post`
/// by output that held the given wipes.
pub open spec fn emitted(
    pre: FrameModel,
    post: FrameModel,
    wipes: Wipes,
    styled: bool,
    last_seq: u64,
) -> Seq<EventModel> {
    numbered(changes(pre, post, wipes, styled), last_seq)
}

/// At most one line change per row: the first `n` rows give at most `n`.
pub proof fn lemma_line_changes_len(pre: FrameModel, post: FrameModel, styled: bool, n: nat)
    ensures
        line_changes(pre, post, styled, n).len() <= n,
    decreases n,
{
    if n > 0 {
        lemma_line_changes_len(pre, post, styled, (n - 1) as nat);
    }
}

/// A step gives at most one event per visible row and six more.
pub proof fn lemma_emitted_len(
    pre: FrameModel,
    post: FrameModel,
    wipes: Wipes,
    styled: bool,
    last_seq: u64,
)
    ensures
        emitted(pre, post, wipes, styled, last_seq).len() <= post.rows.len() + EXTRA_EVENTS,
        emitted(pre, post, wipes, styled, last_seq).len() == changes(
            pre,
            post,
            wipes,
            styled,
        ).len(),
{
    lemma_line_changes_len(pre, post, styled, post.rows.len());
}

/// Sequence numbers strictly increase: every event of a step has a number
/// above `last_seq`, and above that of every event emitted before it.
pub proof fn lemma_seq_strictly_increases(
    pre: FrameModel,
    post: FrameModel,
    wipes: Wipes,
    styled: bool,
    last_seq: u64,
)
    requires
        last_seq + post.rows.len() + EXTRA_EVENTS <= u64::MAX,
    ensures
        forall|i: int|
            0 <= i < emitted(pre, post, wipes, styled, last_seq).len() ==> (#[trigger] emitted(
                pre,
                post,
                wipes,
                styled,
                last_seq,
            )[i]).seq() == last_seq + 1 + i,
        forall|i: int, j: int|
            0 <= i < j < emitted(pre, post, wipes, styled, last_seq).len() ==> (#[trigger] emitted(
                pre,
                post,
                wipes,
                styled,
                last_seq,
            )[i]).seq() < (#[trigger] emitted(pre, post, wipes, styled, last_seq)[j]).seq(),
{
    lemma_emitted_len(pre, post, wipes, styled, last_seq);
}

/// Across two steps in a row, where the second is numbered from the last
/// number that the first used, every event of the second has a number above
/// every event of the first.
pub proof fn lemma_seq_increases_across_feeds(
    a: FrameModel,
    b: FrameModel,
    c: FrameModel,
    first: Wipes,
    second: Wipes,
    styled: bool,
    last_seq: u64,
)
    requires
        last_seq + b.rows.len() + EXTRA_EVENTS + c.rows.len() + EXTRA_EVENTS <= u64::MAX,
    ensures
        forall|i: int, j: int|
            0 <= i < emitted(a, b, first, styled, last_seq).len() && 0 <= j < emitted(
                b,
                c,
                second,
                styled,
                (last_seq + emitted(a, b, first, styled, last_seq).len()) as u64,
            ).len() ==> (#[trigger] emitted(a, b, first, styled, last_seq)[i]).seq() < (
            #[trigger] emitted(
                b,
                c,
                second,
                styled,
                (last_seq + emitted(a, b, first, styled, last_seq).len()) as u64,
            )[j]).seq(),
{
    lemma_emitted_len(a, b, first, styled, last_seq);
    let mid = (last_seq + emitted(a, b, first, styled, last_seq).len()) as u64;
    lemma_emitted_len(b, c, second, styled, mid);
    lemma_seq_strictly_increases(a, b, first, styled, last_seq);
    lemma_seq_strictly_increases(b, c, second, styled, mid);
}

/// Rows that did not change give no line change.
pub proof fn lemma_unchanged_rows(pre: FrameModel, post: FrameModel, styled: bool, n: nat)
    requires
        forall|i: int| 0 <= i < n ==> !row_changed(pre, post, i),
    ensures
        line_changes(pre, post, styled, n).len() == 0,
    decreases n,
{
    if n > 0 {
        lemma_unchanged_rows(pre, post, styled, (n - 1) as nat);
    }
}

/// Nothing changed and nothing wiped, nothing emitted.
pub proof fn lemma_same_frame_emits_nothing(frame: FrameModel, styled: bool, last_seq: u64)
    ensures
        emitted(frame, frame, Wipes::nothing(), styled, last_seq).len() == 0,
{
    lemma_unchanged_rows(frame, frame, styled, frame.rows.len());
}

/// Equality of two rows of cells.
pub fn same_row(a: &Vec<Cell>, b: &Vec<Cell>) -> (eq: bool)
    ensures
        eq == (a@ == b@),
{
    if a.len() != b.len() {
        return false;
    }
    let mut i: usize = 0;
    while i < a.len()
        invariant
            i <= a.len(),
            a.len() == b.len(),
            forall|j: int| 0 <= j < i ==> a@[j] == b@[j],
        decreases a.len() - i,
    {
        if !a[i].same(&b[i]) {
            return false;
        }
        i += 1;
    }
    proof {
        assert(a@ =~= b@);
    }
    true
}

impl Grid {
    /// The part of the grid that subscribers see.
    pub fn frame(&self) -> (frame: Frame)
        ensures
            frame@ == self@.frame(),
    {
        let first = self.history_len();
        let mut rows: Vec<Vec<Cell>> = Vec::new();
        let mut i: usize = first;
        while i < self.lines.len()
            invariant
                first <= i <= self.lines.len(),
                row_models(rows@) == row_models(self.lines@).subrange(first as int, i as int),
            decreases self.lines.len() - i,
        {
            let ghost before = row_models(rows@);
            let row = copy_row(&self.lines[i]);
            rows.push(row);
            proof {
                let all = row_models(self.lines@);
                assert(row_models(rows@) == before.push(row@));
                assert(all.subrange(first as int, i + 1) == all.subrange(
                    first as int,
                    i as int,
                ).push(all[i as int]));
            }
            i += 1;
        }
        proof {
            let all = row_models(self.lines@);
            assert(all.subrange(first as int, all.len() as int) == all.skip(first as int));
        }
        Frame {
            cursor: self.cursor,
            alternate_active: self.alternate_active,
            total_lines: self.lines.len(),
            rows,
        }
    }
}

/// A copy of a row of cells.
pub fn copy_row(row: &Vec<Cell>) -> (copy: Vec<Cell>)
    ensures
        copy@ == row@,
{
    let mut copy: Vec<Cell> = Vec::new();
    let mut i: usize = 0;
    while i < row.len()
        invariant
            i <= row.len(),
            copy@ == row@.take(i as int),
        decreases row.len() - i,
    {
        copy.push(row[i]);
        proof {
            assert(row@.take(i + 1) == row@.take(i as int).push(row@[i as int]));
        }
        i += 1;
    }
    proof {
        assert(row@.take(row@.len() as int) == row@);
    }
    copy
}

/// Appends the event that reports one more change.
fn emit(
    events: &mut Vec<Event>,
    event: Event,
    last_seq: u64,
    Ghost(done): Ghost<Seq<Change>>,
    Ghost(change): Ghost<Change>,
)
    requires
        event_models(old(events)@) == numbered(done, last_seq),
        old(events)@.len() == done.len(),
        event@ == change.at((last_seq + 1 + done.len()) as u64),
    ensures
        event_models(final(events)@) == numbered(done.push(change), last_seq),
        final(events)@.len() == done.len() + 1,
{
    let ghost before = event_models(events@);
    events.push(event);
    proof {
        assert(event_models(events@) == before.push(event@));
        assert(numbered(done.push(change), last_seq) == numbered(done, last_seq).push(event@));
    }
}

/// Appends a reset for the given reason if `wiped`.
fn emit_wipe(
    events: &mut Vec<Event>,
    wiped: bool,
    reason: ResetReason,
    last_seq: u64,
    Ghost(done): Ghost<Seq<Change>>,
)
    requires
        event_models(old(events)@) == numbered(done, last_seq),
        old(events)@.len() == done.len(),
        last_seq + done.len() + 1 <= u64::MAX,
    ensures
        event_models(final(events)@) == numbered(
            done + (if wiped {
                seq![Change::Reset { reason }]
            } else {
                Seq::empty()
            }),
            last_seq,
        ),
        final(events)@.len() == done.len() + (if wiped {
            1int
        } else {
            0int
        }),
{
    if wiped {
        let seq = last_seq + (events.len() as u64) + 1;
        emit(
            events,
            Event::Reset { seq, reason },
            last_seq,
            Ghost(done),
            Ghost(Change::Reset { reason }),
        );
        proof {
            assert(done + seq![Change::Reset { reason }] == done.push(Change::Reset { reason }));
        }
    } else {
        proof {
            assert(done + Seq::<Change>::empty() == done);
        }
    }
}

/// Appends what reports a switch between primary and alternate screen.
fn emit_switch(events: &mut Vec<Event>, pre: &Frame, post: &Frame, last_seq: u64)
    requires
        old(events)@.len() == 0,
        last_seq + 2 <= u64::MAX,
    ensures
        event_models(final(events)@) == numbered(screen_changes(pre@, post@), last_seq),
        final(events)@.len() == screen_changes(pre@, post@).len(),
{
    let ghost done: Seq<Change> = Seq::empty();
    proof {
        assert(event_models(events@) == numbered(done, last_seq));
    }
    if pre.alternate_active != post.alternate_active {
        let reason = if post.alternate_active {
            ResetReason::AlternateScreenEnter
        } else {
            ResetReason::AlternateScreenExit
        };
        let ghost mode = Change::Mode { alternate_active: post.alternate_active };
        let ghost reset = Change::Reset { reason };
        emit(
            events,
            Event::Mode { seq: last_seq + 1, alternate_active: post.alternate_active },
            last_seq,
            Ghost(done),
            Ghost(mode),
        );
        emit(
            events,
            Event::Reset { seq: last_seq + 2, reason },
            last_seq,
            Ghost(done.push(mode)),
            Ghost(reset),
        );
        proof {
            assert(done.push(mode).push(reset) == screen_changes(pre@, post@));
        }
    }
}

/// Appends one line event for each changed visible row.
fn emit_lines(
    events: &mut Vec<Event>,
    pre: &Frame,
    post: &Frame,
    styled: bool,
    last_seq: u64,
    Ghost(head): Ghost<Seq<Change>>,
)
    requires
        event_models(old(events)@) == numbered(head, last_seq),
        old(events)@.len() == head.len(),
        last_seq + head.len() + post.rows@.len() <= u64::MAX,
    ensures
        event_models(final(events)@) == numbered(
            head + line_changes(pre@, post@, styled, post@.rows.len()),
            last_seq,
        ),
        final(events)@.len() == head.len() + line_changes(
            pre@,
            post@,
            styled,
            post@.rows.len(),
        ).len(),
{
    let ghost mut done = head;
    proof {
        assert(head + line_changes(pre@, post@, styled, 0) == head);
    }
    let mut i: usize = 0;
    while i < post.rows.len()
        invariant
            i <= post.rows.len(),
            done == head + line_changes(pre@, post@, styled, i as nat),
            line_changes(pre@, post@, styled, i as nat).len() <= i,
            events@.len() == done.len(),
            last_seq + head.len() + post.rows@.len() <= u64::MAX,
            event_models(events@) == numbered(done, last_seq),
        decreases post.rows.len() - i,
    {
        let changed = i >= pre.rows.len() || !same_row(&pre.rows[i], &post.rows[i]);
        proof {
            assert(row_models(post.rows@)[i as int] == post.rows@[i as int]@);
            if i < pre.rows.len() {
                assert(row_models(pre.rows@)[i as int] == pre.rows@[i as int]@);
            }
            assert(changed == row_changed(pre@, post@, i as int));
        }
        if changed {
            let line = format_line(&post.rows[i], styled);
            let ghost change = Change::Line {
                index: i,
                line: rendered(post@.rows[i as int], styled),
                total_lines: post.total_lines,
            };
            let seq = last_seq + (events.len() as u64) + 1;
            emit(
                events,
                Event::Line { seq, index: i, line, total_lines: post.total_lines },
                last_seq,
                Ghost(done),
                Ghost(change),
            );
            proof {
                assert(line_changes(pre@, post@, styled, (i + 1) as nat) == line_changes(
                    pre@,
                    post@,
                    styled,
                    i as nat,
                ).push(change));
                assert(head + line_changes(pre@, post@, styled, (i + 1) as nat) == done.push(
                    change,
                ));
                done = done.push(change);
            }
        }
        i += 1;
    }
    proof {
        assert(post@.rows.len() == post.rows@.len());
    }
}

/// Appends the cursor event if the cursor moved or was shown or hidden.
fn emit_cursor(
    events: &mut Vec<Event>,
    pre: &Frame,
    post: &Frame,
    last_seq: u64,
    Ghost(done): Ghost<Seq<Change>>,
)
    requires
        event_models(old(events)@) == numbered(done, last_seq),
        old(events)@.len() == done.len(),
        last_seq + done.len() + 1 <= u64::MAX,
    ensures
        event_models(final(events)@) == numbered(done + cursor_changes(pre@, post@), last_seq),
        final(events)@.len() == done.len() + cursor_changes(pre@, post@).len(),
{
    if !(pre.cursor.row == post.cursor.row && pre.cursor.col == post.cursor.col
        && pre.cursor.visible == post.cursor.visible) {
        let ghost change = Change::Cursor {
            row: post.cursor.row,
            col: post.cursor.col,
            visible: post.cursor.visible,
        };
        let seq = last_seq + (events.len() as u64) + 1;
        emit(
            events,
            Event::Cursor {
                seq,
                row: post.cursor.row,
                col: post.cursor.col,
                visible: post.cursor.visible,
            },
            last_seq,
            Ghost(done),
            Ghost(change),
        );
        proof {
            assert(cursor_changes(pre@, post@) == seq![change]);
            assert(done + seq![change] == done.push(change));
        }
    } else {
        proof {
            assert(done + cursor_changes(pre@, post@) == done);
        }
    }
}

/// The events for the step from frame `pre` to frame `post`, numbered from
/// the number after `last_seq`: a mode change and a reset if the active
/// screen switched, one reset for each kind of wipe that the output held,
/// one line event per changed visible row, and one cursor event if the
/// cursor moved or was shown or hidden.
pub fn diff_events(
    pre: &Frame,
    post: &Frame,
    wipes: Wipes,
    format: Format,
    last_seq: u64,
) -> (events: Vec<Event>)
    requires
        last_seq + post.rows@.len() + EXTRA_EVENTS <= u64::MAX,
    ensures
        event_models(events@) == emitted(pre@, post@, wipes, format == Format::Styled, last_seq),
        events@.len() <= post.rows@.len() + EXTRA_EVENTS,
{
    let styled = format.is_styled();
    let mut events: Vec<Event> = Vec::new();
    emit_switch(&mut events, pre, post, last_seq);
    let ghost switch = screen_changes(pre@, post@);
    emit_wipe(&mut events, wipes.screen, ResetReason::ClearScreen, last_seq, Ghost(switch));
    let ghost first = switch + (if wipes.screen {
        seq![Change::Reset { reason: ResetReason::ClearScreen }]
    } else {
        Seq::empty()
    });
    emit_wipe(&mut events, wipes.scrollback, ResetReason::ClearScrollback, last_seq, Ghost(first));
    let ghost second = first + (if wipes.scrollback {
        seq![Change::Reset { reason: ResetReason::ClearScrollback }]
    } else {
        Seq::empty()
    });
    emit_wipe(&mut events, wipes.everything, ResetReason::HardReset, last_seq, Ghost(second));
    let ghost head = second + (if wipes.everything {
        seq![Change::Reset { reason: ResetReason::HardReset }]
    } else {
        Seq::empty()
    });
    proof {
        assert(head == switch + wipe_changes(wipes));
    }
    emit_lines(&mut events, pre, post, styled, last_seq, Ghost(head));
    let ghost body = head + line_changes(pre@, post@, styled, post@.rows.len());
    proof {
        lemma_line_changes_len(pre@, post@, styled, post@.rows.len());
    }
    emit_cursor(&mut events, pre, post, last_seq, Ghost(body));
    events
}

} // verus!
