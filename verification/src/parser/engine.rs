//! The emulator with its event numbering: feeding output, answering
//! queries, resizing, and restarting.

use vstd::prelude::*;
use super::ParserError;
use super::changes::{
    EXTRA_EVENTS, Frame, FrameModel, Wipe, Wipes, diff_events, emitted, wipe_for, wipe_of,
};
use super::events::{Event, EventModel, ResetReason, event_models};
use super::format::plain_cells;
use super::state::{Cell, Format, Grid, GridModel, Query, QueryResponse, row_models};
use super::task::handle_query;
use super::vt::{
    MAX_SCROLLBACK, blank_grid, capture_alternate, capture_cursor, collected, decode_lossy,
    executed, fresh_terminal, lossy_text, new_terminal, operation, operation_of, parsed,
    penned_lines, plain_rows, resize_terminal, resized, screen_state, trim_scrollback,
};

verus! {

/// The emulator proper, as a mathematical value: the sequence parser and
/// the terminal that it drives.
pub struct Machine {
    pub parser: avt::parser::Parser,
    pub terminal: avt::terminal::Terminal,
}

impl Machine {
    /// What the terminal holds.
    pub open spec fn grid(self) -> GridModel {
        screen_state(self.terminal)
    }

    /// The machine after one character: the parser takes it, and the
    /// terminal carries out the operation that the parser recognised, if
    /// any.
    pub open spec fn step(self, ch: char) -> Machine {
        let (parser, op) = parsed(self.parser, ch);
        Machine {
            parser,
            terminal: match op {
                Some(fun) => executed(self.terminal, fun),
                None => self.terminal,
            },
        }
    }

    /// What the operation wipes that one character completes, if it
    /// completes one.
    pub open spec fn wipe_at(self, ch: char) -> Wipe {
        match parsed(self.parser, ch).1 {
            Some(fun) => wipe_for(operation_of(fun)),
            None => Wipe::Nothing,
        }
    }

    /// The machine after a text, character by character.
    pub open spec fn run(self, text: Seq<char>) -> Machine
        decreases text.len(),
    {
        if text.len() == 0 {
            self
        } else {
            self.run(text.drop_last()).step(text.last())
        }
    }

    /// The wipes that a text holds for this machine.
    pub open spec fn wipes_in(self, text: Seq<char>) -> Wipes
        decreases text.len(),
    {
        if text.len() == 0 {
            Wipes::nothing()
        } else {
            self.wipes_in(text.drop_last()).with(self.run(text.drop_last()).wipe_at(text.last()))
        }
    }

    /// The machine after a chunk of output: it has run the text, and the
    /// lines beyond the scrollback limit are removed.
    pub open spec fn fed(self, text: Seq<char>) -> Machine {
        Machine { parser: self.run(text).parser, terminal: collected(self.run(text).terminal) }
    }

    /// The machine after a resize, with the lines beyond the scrollback
    /// limit removed.
    pub open spec fn sized(self, cols: usize, rows: usize) -> Machine {
        Machine { parser: self.parser, terminal: collected(resized(self.terminal, cols, rows)) }
    }
}

/// A terminal emulator together with the numbering of its events.
///
/// The engine remembers the frame that subscribers saw last, so that each
/// feed reports exactly what changed since. Within an epoch the sequence
/// numbers of its events strictly increase; a restart begins a new epoch.
pub struct Engine {
    parser: avt::parser::Parser,
    terminal: avt::terminal::Terminal,
    cols: usize,
    rows: usize,
    scrollback_limit: usize,
    epoch: u64,
    seq: u64,
    last: Frame,
    wipes: Wipes,
}

/// An answer together with the events that answering gave rise to.
#[derive(Debug, Clone, PartialEq, Eq)]
pub struct Reply {
    pub response: QueryResponse,
    pub events: Vec<Event>,
}

/// The fewest columns that an emulator can be resized to. It rewraps its
/// lines to the new width, and a wide character does not fit one column.
pub const MIN_RESIZE_COLS: usize = 2;

/// Whether an emulator can be resized to a size: it needs two columns and
/// a row.
pub open spec fn can_resize_to(cols: usize, rows: usize) -> bool {
    cols >= MIN_RESIZE_COLS && rows > 0
}

/// The epoch after `epoch`; the counter wraps around at its upper end.
pub open spec fn next_epoch(epoch: u64) -> u64 {
    if epoch == u64::MAX {
        0
    } else {
        (epoch + 1) as u64
    }
}

impl Engine {
    /// The size and the scrollback limit that the engine remembers are ones
    /// that an emulator can be made with.
    pub open spec fn sized(&self) -> bool {
        self.cols() > 0 && self.rows() > 0 && self.scrollback_limit() <= MAX_SCROLLBACK
    }

    /// The engine can go on: its size is valid, and the frame that
    /// subscribers saw last is the frame of the emulator's present state.
    pub open spec fn wf(&self) -> bool {
        self.sized() && self.last() == self.grid().frame()
    }

    /// The emulator proper.
    pub closed spec fn machine(&self) -> Machine {
        Machine { parser: self.parser, terminal: self.terminal }
    }

    /// The emulator's present state.
    pub open spec fn grid(&self) -> GridModel {
        self.machine().grid()
    }

    /// The columns that the emulator was last set to.
    pub closed spec fn cols(&self) -> usize {
        self.cols
    }

    /// The rows that the emulator was last set to.
    pub closed spec fn rows(&self) -> usize {
        self.rows
    }

    /// The number of history lines that the emulator keeps.
    pub closed spec fn scrollback_limit(&self) -> usize {
        self.scrollback_limit
    }

    /// The current epoch.
    pub closed spec fn epoch(&self) -> u64 {
        self.epoch
    }

    /// The sequence number of the last event of this epoch, zero before the
    /// first.
    pub closed spec fn seq(&self) -> u64 {
        self.seq
    }

    /// The frame that subscribers saw last.
    pub closed spec fn last(&self) -> FrameModel {
        self.last@
    }

    /// The wipes that the last chunk of output held.
    pub closed spec fn wipes(&self) -> Wipes {
        self.wipes
    }

    /// An emulator of the given size that keeps at most `scrollback_limit`
    /// lines of history, in epoch zero, with no event numbered yet. Its
    /// screen is blank, with the cursor at the origin.
    pub fn new(cols: usize, rows: usize, scrollback_limit: usize) -> (engine: Engine)
        requires
            cols > 0,
            rows > 0,
            scrollback_limit <= MAX_SCROLLBACK,
        ensures
            engine.wf(),
            engine.machine().terminal == fresh_terminal(cols, rows, scrollback_limit),
            engine.grid() == blank_grid(cols, rows),
            engine.cols() == cols,
            engine.rows() == rows,
            engine.scrollback_limit() == scrollback_limit,
            engine.epoch() == 0,
            engine.seq() == 0,
            engine.wipes() == Wipes::nothing(),
    {
        let terminal = new_terminal(cols, rows, scrollback_limit);
        let parser = avt::parser::Parser::new();
        let last = grid_of(&terminal).frame();
        Engine {
            parser,
            terminal,
            cols,
            rows,
            scrollback_limit,
            epoch: 0,
            seq: 0,
            last,
            wipes: Wipes::none(),
        }
    }

    /// An emulator of the given size and scrollback limit, if the size has
    /// a column and a row and the limit is within its bound; any other is
    /// refused.
    pub fn try_new(cols: usize, rows: usize, scrollback_limit: usize) -> (result: Result<
        Engine,
        ParserError,
    >)
        ensures
            result is Ok <==> cols > 0 && rows > 0 && scrollback_limit <= MAX_SCROLLBACK,
            result is Err ==> result->Err_0 is InvalidQuery,
            result is Ok ==> {
                &&& result->Ok_0.wf()
                &&& result->Ok_0.machine().terminal == fresh_terminal(
                    cols,
                    rows,
                    scrollback_limit,
                )
                &&& result->Ok_0.grid() == blank_grid(cols, rows)
                &&& result->Ok_0.cols() == cols
                &&& result->Ok_0.rows() == rows
                &&& result->Ok_0.scrollback_limit() == scrollback_limit
                &&& result->Ok_0.epoch() == 0
                &&& result->Ok_0.seq() == 0
                &&& result->Ok_0.wipes() == Wipes::nothing()
            },
    {
        if cols == 0 || rows == 0 {
            return Err(ParserError::InvalidQuery("the grid needs a column and a row".to_owned()));
        }
        if scrollback_limit > MAX_SCROLLBACK {
            return Err(ParserError::InvalidQuery("the scrollback limit is too large".to_owned()));
        }
        Ok(Engine::new(cols, rows, scrollback_limit))
    }

    /// The current epoch.
    pub fn current_epoch(&self) -> (epoch: u64)
        ensures
            epoch == self.epoch(),
    {
        self.epoch
    }

    /// The sequence number of the last event of this epoch.
    pub fn last_seq(&self) -> (seq: u64)
        ensures
            seq == self.seq(),
    {
        self.seq
    }

    /// The size that the emulator was last set to, columns first.
    pub fn size(&self) -> (size: (usize, usize))
        ensures
            size == (self.cols(), self.rows()),
    {
        (self.cols, self.rows)
    }

    /// The number of history lines that the emulator keeps.
    pub fn history_limit(&self) -> (limit: usize)
        ensures
            limit == self.scrollback_limit(),
    {
        self.scrollback_limit
    }

    /// The frame that subscribers saw last.
    pub fn last_frame(&self) -> (frame: &Frame)
        ensures
            frame@ == self.last(),
    {
        &self.last
    }

    /// The wipes that the last chunk of output held.
    pub fn last_wipes(&self) -> (wipes: Wipes)
        ensures
            wipes == self.wipes(),
    {
        self.wipes
    }

    /// The emulator's present state as plain values.
    pub fn capture(&self) -> (grid: Grid)
        ensures
            grid@ == self.grid(),
            grid@.lines.len() >= grid@.rows,
    {
        grid_of(&self.terminal)
    }

    /// Feeds a chunk of output to the emulator and reports what changed on
    /// the frame since the last report, numbered after the last event.
    ///
    /// The emulator takes the chunk's text character by character; bytes
    /// that are not UTF-8 are read as the replacement character. If the
    /// numbers of this epoch are used up, nothing is reported and the task
    /// counts as dead: the engine must be restarted.
    pub fn feed(&mut self, bytes: &[u8], format: Format) -> (result: Result<
        Vec<Event>,
        ParserError,
    >)
        requires
            old(self).wf(),
        ensures
            final(self).wf(),
            final(self).machine() == old(self).machine().fed(lossy_text(bytes@)),
            final(self).wipes() == old(self).machine().wipes_in(lossy_text(bytes@)),
            final(self).cols() == old(self).cols(),
            final(self).rows() == old(self).rows(),
            final(self).scrollback_limit() == old(self).scrollback_limit(),
            final(self).epoch() == old(self).epoch(),
            match result {
                Ok(events) => {
                    &&& old(self).seq() + final(self).last().rows.len() + EXTRA_EVENTS <= u64::MAX
                    &&& event_models(events@) == emitted(
                        old(self).last(),
                        final(self).last(),
                        final(self).wipes(),
                        format == Format::Styled,
                        old(self).seq(),
                    )
                    &&& final(self).seq() == old(self).seq() + events@.len()
                },
                Err(error) => {
                    &&& error == ParserError::TaskDied
                    &&& old(self).seq() + final(self).last().rows.len() + EXTRA_EVENTS > u64::MAX
                    &&& final(self).seq() == old(self).seq()
                },
            },
    {
        let text = decode_lossy(bytes);
        let ghost start = self.machine();
        let mut wipes = Wipes::none();
        let mut i: usize = 0;
        while i < text.len()
            invariant
                i <= text.len(),
                self.machine() == start.run(text@.take(i as int)),
                wipes == start.wipes_in(text@.take(i as int)),
                self.cols == old(self).cols,
                self.rows == old(self).rows,
                self.scrollback_limit == old(self).scrollback_limit,
                self.epoch == old(self).epoch,
                self.seq == old(self).seq,
                self.last == old(self).last,
            decreases text.len() - i,
        {
            proof {
                assert(text@.take(i + 1).drop_last() == text@.take(i as int));
                assert(text@.take(i + 1).last() == text@[i as int]);
            }
            match self.parser.feed(text[i]) {
                Some(op) => {
                    wipes = wipes.note(wipe_of(operation(&op)));
                    self.terminal.execute(op);
                },
                None => {},
            }
            i += 1;
        }
        proof {
            assert(text@.take(text@.len() as int) == text@);
        }
        trim_scrollback(&mut self.terminal);
        let post = grid_of(&self.terminal).frame();
        self.report(post, wipes, format)
    }

    /// Makes `post` the frame that subscribers saw last and reports the
    /// step to it.
    fn report(&mut self, post: Frame, wipes: Wipes, format: Format) -> (result: Result<
        Vec<Event>,
        ParserError,
    >)
        requires
            old(self).sized(),
            post@ == old(self).grid().frame(),
        ensures
            final(self).wf(),
            final(self).machine() == old(self).machine(),
            final(self).cols() == old(self).cols(),
            final(self).rows() == old(self).rows(),
            final(self).scrollback_limit() == old(self).scrollback_limit(),
            final(self).epoch() == old(self).epoch(),
            final(self).last() == post@,
            final(self).wipes() == wipes,
            match result {
                Ok(events) => {
                    &&& old(self).seq() + post@.rows.len() + EXTRA_EVENTS <= u64::MAX
                    &&& event_models(events@) == emitted(
                        old(self).last(),
                        post@,
                        wipes,
                        format == Format::Styled,
                        old(self).seq(),
                    )
                    &&& final(self).seq() == old(self).seq() + events@.len()
                },
                Err(error) => {
                    &&& error == ParserError::TaskDied
                    &&& old(self).seq() + post@.rows.len() + EXTRA_EVENTS > u64::MAX
                    &&& final(self).seq() == old(self).seq()
                },
            },
    {
        let visible = post.rows.len();
        proof {
            assert(post@.rows.len() == post.rows@.len());
        }
        let needed = visible as u64;
        self.wipes = wipes;
        if needed > u64::MAX - EXTRA_EVENTS || self.seq > u64::MAX - EXTRA_EVENTS - needed {
            self.last = post;
            return Err(ParserError::TaskDied);
        }
        let events = diff_events(&self.last, &post, wipes, format, self.seq);
        proof {
            assert(event_models(events@).len() == events@.len());
        }
        self.seq = self.seq + (events.len() as u64);
        self.last = post;
        Ok(events)
    }

    /// Answers a query that reads the emulator: the answer is the one that
    /// its present state gives in the current epoch. A screen answer has as
    /// many lines as the emulator has rows. A resize, which would change
    /// the emulator, is acknowledged and not carried out.
    pub fn answer(&self, query: Query) -> (response: QueryResponse)
        ensures
            response@ == self.grid().answer(query, self.epoch()),
            match response {
                QueryResponse::Screen(screen) => {
                    &&& query is Screen
                    &&& screen.epoch == self.epoch()
                    &&& screen.total_lines == screen.first_line_index + screen.lines@.len()
                    &&& screen.lines@.len() == screen.rows
                    &&& screen.total_lines >= screen.rows
                },
                QueryResponse::Scrollback(page) => {
                    &&& query is Scrollback
                    &&& page.epoch == self.epoch()
                    &&& page.offset == query->Scrollback_offset
                    &&& page.lines@.len() <= query->Scrollback_limit
                },
                QueryResponse::Cursor(cursor) => query is Cursor && cursor.epoch == self.epoch(),
                QueryResponse::Done => query is Resize,
            },
    {
        let grid = self.capture();
        proof {
            assert(row_models(grid.lines@).len() == grid.lines@.len());
        }
        match query {
            Query::Screen { format } => QueryResponse::Screen(grid.screen(format, self.epoch)),
            Query::Scrollback { format, offset, limit } => QueryResponse::Scrollback(
                grid.page(format, offset, limit, self.epoch),
            ),
            _ => handle_query(&grid, query, self.epoch),
        }
    }

    /// Sets the emulator to a new size and reports a reset, by which
    /// subscribers know to ask for the screen again.
    ///
    /// A size of fewer than two columns or without rows is refused and
    /// changes nothing: the emulator cannot rewrap what it holds to a
    /// single column. If the numbers of this epoch are used up, the size
    /// changes, nothing is reported, and the task counts as dead.
    pub fn resize(&mut self, cols: usize, rows: usize) -> (result: Result<Vec<Event>, ParserError>)
        requires
            old(self).wf(),
        ensures
            final(self).wf(),
            final(self).scrollback_limit() == old(self).scrollback_limit(),
            final(self).epoch() == old(self).epoch(),
            !can_resize_to(cols, rows) ==> {
                &&& result is Err
                &&& result->Err_0 is InvalidQuery
                &&& final(self).cols() == old(self).cols()
                &&& final(self).rows() == old(self).rows()
                &&& final(self).seq() == old(self).seq()
                &&& final(self).last() == old(self).last()
                &&& final(self).wipes() == old(self).wipes()
                &&& final(self).machine() == old(self).machine()
            },
            can_resize_to(cols, rows) ==> {
                &&& final(self).machine() == old(self).machine().sized(cols, rows)
                &&& final(self).grid().cols == cols
                &&& final(self).grid().rows == rows
                &&& final(self).cols() == cols
                &&& final(self).rows() == rows
                &&& result is Ok <==> old(self).seq() < u64::MAX
                &&& result is Ok ==> {
                    &&& final(self).seq() == old(self).seq() + 1
                    &&& event_models(result->Ok_0@) == seq![
                        EventModel::Reset {
                            seq: final(self).seq(),
                            reason: ResetReason::Resize,
                        },
                    ]
                }
                &&& result is Err ==> {
                    &&& result->Err_0 == ParserError::TaskDied
                    &&& final(self).seq() == old(self).seq()
                }
            },
    {
        if cols < MIN_RESIZE_COLS || rows == 0 {
            return Err(
                ParserError::InvalidQuery("a resize needs two columns and a row".to_owned()),
            );
        }
        resize_terminal(&mut self.terminal, cols, rows);
        trim_scrollback(&mut self.terminal);
        self.cols = cols;
        self.rows = rows;
        self.last = grid_of(&self.terminal).frame();
        if self.seq == u64::MAX {
            return Err(ParserError::TaskDied);
        }
        self.seq = self.seq + 1;
        let mut events: Vec<Event> = Vec::new();
        let event = Event::Reset { seq: self.seq, reason: ResetReason::Resize };
        events.push(event);
        proof {
            assert(event_models(events@) == seq![event@]);
        }
        Ok(events)
    }

    /// Carries out a query: a resize changes the emulator and reports a
    /// reset, every other query is answered from the present state and
    /// reports nothing.
    pub fn handle(&mut self, query: Query) -> (result: Result<Reply, ParserError>)
        requires
            old(self).wf(),
        ensures
            final(self).wf(),
            final(self).epoch() == old(self).epoch(),
            final(self).scrollback_limit() == old(self).scrollback_limit(),
            match query {
                Query::Resize { cols, rows } => {
                    &&& result is Ok <==> can_resize_to(cols, rows) && old(self).seq() < u64::MAX
                    &&& result is Ok ==> {
                        &&& result->Ok_0.response == QueryResponse::Done
                        &&& final(self).seq() == old(self).seq() + 1
                        &&& event_models(result->Ok_0.events@) == seq![
                            EventModel::Reset {
                                seq: final(self).seq(),
                                reason: ResetReason::Resize,
                            },
                        ]
                    }
                    &&& can_resize_to(cols, rows) ==> {
                        &&& final(self).machine() == old(self).machine().sized(cols, rows)
                        &&& final(self).grid().cols == cols
                        &&& final(self).grid().rows == rows
                        &&& final(self).cols() == cols
                        &&& final(self).rows() == rows
                    }
                    &&& !can_resize_to(cols, rows) ==> {
                        &&& result->Err_0 is InvalidQuery
                        &&& final(self).machine() == old(self).machine()
                        &&& final(self).cols() == old(self).cols()
                        &&& final(self).rows() == old(self).rows()
                        &&& final(self).seq() == old(self).seq()
                        &&& final(self).last() == old(self).last()
                    }
                    &&& can_resize_to(cols, rows) && result is Err ==> result->Err_0
                        == ParserError::TaskDied
                },
                _ => {
                    &&& result is Ok
                    &&& result->Ok_0.events@.len() == 0
                    &&& result->Ok_0.response@ == old(self).grid().answer(
                        query,
                        old(self).epoch(),
                    )
                    &&& final(self).machine() == old(self).machine()
                    &&& final(self).cols() == old(self).cols()
                    &&& final(self).rows() == old(self).rows()
                    &&& final(self).seq() == old(self).seq()
                    &&& final(self).last() == old(self).last()
                },
            },
    {
        match query {
            Query::Resize { cols, rows } => {
                match self.resize(cols, rows) {
                    Ok(events) => Ok(Reply { response: QueryResponse::Done, events }),
                    Err(error) => Err(error),
                }
            },
            _ => {
                let response = self.answer(query);
                Ok(Reply { response, events: Vec::new() })
            },
        }
    }

    /// Begins a new epoch with a fresh emulator of the last known size and
    /// the same scrollback limit: its screen is blank, with the cursor at
    /// the origin. The reset that announces it carries the number zero, and
    /// the numbering of the new epoch starts after it.
    ///
    /// This is the way back after a failure, so it asks for no more than a
    /// valid size.
    pub fn restart(&mut self) -> (event: Event)
        requires
            old(self).sized(),
        ensures
            final(self).wf(),
            final(self).machine().terminal == fresh_terminal(
                old(self).cols(),
                old(self).rows(),
                old(self).scrollback_limit(),
            ),
            final(self).grid() == blank_grid(old(self).cols(), old(self).rows()),
            final(self).cols() == old(self).cols(),
            final(self).rows() == old(self).rows(),
            final(self).scrollback_limit() == old(self).scrollback_limit(),
            final(self).epoch() == next_epoch(old(self).epoch()),
            final(self).seq() == 0,
            final(self).wipes() == Wipes::nothing(),
            event@ == (EventModel::Reset { seq: 0, reason: ResetReason::ParserRestart }),
    {
        self.terminal = new_terminal(self.cols, self.rows, self.scrollback_limit);
        self.parser = avt::parser::Parser::new();
        self.last = grid_of(&self.terminal).frame();
        self.wipes = Wipes::none();
        self.epoch = if self.epoch == u64::MAX {
            0
        } else {
            self.epoch + 1
        };
        self.seq = 0;
        Event::Reset { seq: 0, reason: ResetReason::ParserRestart }
    }

    /// Whether the engine can be restarted: whether the size and the
    /// scrollback limit that it remembers are ones that an emulator can be
    /// made with.
    pub fn can_restart(&self) -> (able: bool)
        ensures
            able == self.sized(),
    {
        self.cols > 0 && self.rows > 0 && self.scrollback_limit <= MAX_SCROLLBACK
    }
}

/// The emulator's state as plain values.
fn grid_of(terminal: &avt::terminal::Terminal) -> (grid: Grid)
    ensures
        grid@ == screen_state(*terminal),
        grid@.lines.len() >= grid@.rows,
{
    let (cols, rows) = terminal.size();
    let penned = penned_lines(terminal);
    let mut lines: Vec<Vec<Cell>> = Vec::new();
    let mut i: usize = 0;
    while i < penned.len()
        invariant
            i <= penned.len(),
            row_models(lines@) == plain_rows(penned@.take(i as int)),
        decreases penned.len() - i,
    {
        let ghost before = row_models(lines@);
        let row = plain_cells(&penned[i]);
        lines.push(row);
        proof {
            assert(row_models(lines@) == before.push(row@));
            assert(penned@.take(i + 1) == penned@.take(i as int).push(penned@[i as int]));
            assert(plain_rows(penned@.take(i + 1)) == plain_rows(penned@.take(i as int)).push(
                row@,
            ));
        }
        i += 1;
    }
    proof {
        assert(penned@.take(penned@.len() as int) == penned@);
        assert(plain_rows(penned@).len() == penned@.len());
    }
    Grid {
        cols,
        rows,
        cursor: capture_cursor(terminal),
        alternate_active: capture_alternate(terminal),
        lines,
    }
}

} // verus!
