//! The emulator task's decisions: whose turn it is, and what a query is
//! answered from a captured grid.

use vstd::prelude::*;
use super::format::{format_line, rendered};
use super::state::{
    Cell, CursorResponse, Format, FormattedLine, Grid, GridModel, LineModel, Query, QueryResponse,
    ResponseModel, ScreenModel, ScreenResponse, ScrollbackModel, ScrollbackResponse, line_models,
    row_models,
};

verus! {

/// What the emulator task serves in one turn.
#[derive(Debug, Clone, Copy, PartialEq, Eq, Structural)]
pub enum Turn {
    /// The next chunk of output.
    Chunk,
    /// The next query.
    Query,
}

/// Whose turn it is, as a rule: output comes first, but right after a
/// chunk a waiting query is served before the next chunk; with nothing
/// waiting, nobody is served.
pub open spec fn turn_after(last: Option<Turn>, chunk_waits: bool, query_waits: bool) -> Option<
    Turn,
> {
    if query_waits && (last == Some(Turn::Chunk) || !chunk_waits) {
        Some(Turn::Query)
    } else if chunk_waits {
        Some(Turn::Chunk)
    } else {
        None
    }
}

/// Whose turn it is, given what was served last and what is waiting.
pub fn next_turn(last: Option<Turn>, chunk_waits: bool, query_waits: bool) -> (turn: Option<Turn>)
    ensures
        turn == turn_after(last, chunk_waits, query_waits),
        turn is None <==> !chunk_waits && !query_waits,
        turn == Some(Turn::Chunk) ==> chunk_waits,
        turn == Some(Turn::Query) ==> query_waits,
{
    let after_chunk = match last {
        Some(Turn::Chunk) => true,
        _ => false,
    };
    if query_waits && (after_chunk || !chunk_waits) {
        Some(Turn::Query)
    } else if chunk_waits {
        Some(Turn::Chunk)
    } else {
        None
    }
}

/// Queries are not starved: a query that waits is served in this turn or
/// in the next, however much output is waiting.
pub proof fn lemma_queries_are_not_starved(last: Option<Turn>, chunk_waits: bool, more_waits: bool)
    ensures
        turn_after(last, chunk_waits, true) == Some(Turn::Query) || turn_after(
            turn_after(last, chunk_waits, true),
            more_waits,
            true,
        ) == Some(Turn::Query),
{
}

/// Output is served first: while chunks wait, no two queries are served in
/// a row.
pub proof fn lemma_output_comes_first(last: Option<Turn>, query_waits: bool)
    ensures
        last != Some(Turn::Chunk) ==> turn_after(last, true, query_waits) == Some(Turn::Chunk),
{
}

/// The renderings of a sequence of rows.
pub open spec fn render_all(rows: Seq<Seq<Cell>>, styled: bool) -> Seq<LineModel> {
    rows.map_values(|r: Seq<Cell>| rendered(r, styled))
}

/// The smaller of two integers.
pub open spec fn at_most(a: int, b: int) -> int {
    if a <= b {
        a
    } else {
        b
    }
}

impl GridModel {
    /// The answer to a screen query: the visible rows, rendered, with the
    /// cursor, the size and the active screen. The line count covers history
    /// and visible rows; the first visible row stands right after the
    /// history.
    pub open spec fn screen(self, format: Format, epoch: u64) -> ScreenModel {
        ScreenModel {
            epoch,
            lines: render_all(self.visible(), format == Format::Styled),
            cursor: self.cursor,
            cols: self.cols,
            rows: self.rows,
            alternate_active: self.alternate_active,
            total_lines: self.lines.len() as usize,
            first_line_index: self.history_len() as usize,
        }
    }

    /// The answer to a scrollback query: of all lines, history first, those
    /// from `offset` on, at most `limit` of them, rendered.
    pub open spec fn page(self, format: Format, offset: usize, limit: usize, epoch: u64)
        -> ScrollbackModel {
        let len = self.lines.len() as int;
        ScrollbackModel {
            epoch,
            lines: render_all(
                self.lines.subrange(at_most(offset as int, len), at_most(offset + limit, len)),
                format == Format::Styled,
            ),
            total_lines: self.lines.len() as usize,
            offset,
        }
    }

    /// The answer to a query. A resize is acknowledged: it changes the
    /// emulator, not the captured grid.
    pub open spec fn answer(self, query: Query, epoch: u64) -> ResponseModel {
        match query {
            Query::Screen { format } => ResponseModel::Screen(self.screen(format, epoch)),
            Query::Scrollback { format, offset, limit } => ResponseModel::Scrollback(
                self.page(format, offset, limit, epoch),
            ),
            Query::Cursor => ResponseModel::Cursor(CursorResponse { epoch, cursor: self.cursor }),
            Query::Resize { .. } => ResponseModel::Done,
        }
    }
}

/// Renders the rows `start..end` of a grid.
pub fn format_rows(rows: &Vec<Vec<Cell>>, start: usize, end: usize, styled: bool) -> (lines: Vec<
    FormattedLine,
>)
    requires
        start <= end <= rows.len(),
    ensures
        line_models(lines@) == render_all(
            row_models(rows@).subrange(start as int, end as int),
            styled,
        ),
{
    let mut lines: Vec<FormattedLine> = Vec::new();
    let mut i: usize = start;
    while i < end
        invariant
            start <= i <= end <= rows.len(),
            line_models(lines@) == render_all(
                row_models(rows@).subrange(start as int, i as int),
                styled,
            ),
        decreases end - i,
    {
        let ghost before = line_models(lines@);
        let line = format_line(&rows[i], styled);
        lines.push(line);
        proof {
            let all = row_models(rows@);
            assert(all.subrange(start as int, i + 1) == all.subrange(start as int, i as int).push(
                all[i as int],
            ));
            assert(line_models(lines@) == before.push(line@));
            assert(render_all(all.subrange(start as int, i + 1), styled) == render_all(
                all.subrange(start as int, i as int),
                styled,
            ).push(rendered(all[i as int], styled)));
        }
        i += 1;
    }
    lines
}

impl Grid {
    /// How many lines lie above the visible rows.
    pub fn history_len(&self) -> (n: usize)
        ensures
            n == self@.history_len(),
    {
        if self.lines.len() >= self.rows {
            self.lines.len() - self.rows
        } else {
            0
        }
    }

    /// Answers a screen query. The line count is always the first visible
    /// row's index plus the number of visible rows.
    pub fn screen(&self, format: Format, epoch: u64) -> (screen: ScreenResponse)
        ensures
            screen@ == self@.screen(format, epoch),
            screen.total_lines == screen.first_line_index + screen.lines@.len(),
            self.lines@.len() >= self.rows ==> screen.lines@.len() == self.rows,
    {
        let first = self.history_len();
        let total = self.lines.len();
        let lines = format_rows(&self.lines, first, total, format.is_styled());
        proof {
            assert(row_models(self.lines@).subrange(first as int, total as int)
                == self@.visible());
            assert(line_models(lines@).len() == lines@.len());
        }
        ScreenResponse {
            epoch,
            lines,
            cursor: self.cursor,
            cols: self.cols,
            rows: self.rows,
            alternate_active: self.alternate_active,
            total_lines: total,
            first_line_index: first,
        }
    }

    /// Answers a scrollback query: one page of all lines, history first.
    pub fn page(&self, format: Format, offset: usize, limit: usize, epoch: u64) -> (page:
        ScrollbackResponse)
        ensures
            page@ == self@.page(format, offset, limit, epoch),
            page.lines@.len() <= limit,
    {
        let total = self.lines.len();
        let start = if offset < total {
            offset
        } else {
            total
        };
        let end = if limit < total - start {
            start + limit
        } else {
            total
        };
        let lines = format_rows(&self.lines, start, end, format.is_styled());
        proof {
            assert(line_models(lines@).len() == lines@.len());
        }
        ScrollbackResponse { epoch, lines, total_lines: total, offset }
    }
}

/// Answers a query from a captured grid.
pub fn handle_query(grid: &Grid, query: Query, epoch: u64) -> (response: QueryResponse)
    ensures
        response@ == grid@.answer(query, epoch),
{
    match query {
        Query::Screen { format } => QueryResponse::Screen(grid.screen(format, epoch)),
        Query::Scrollback { format, offset, limit } => QueryResponse::Scrollback(
            grid.page(format, offset, limit, epoch),
        ),
        Query::Cursor => QueryResponse::Cursor(CursorResponse { epoch, cursor: grid.cursor }),
        Query::Resize { .. } => QueryResponse::Done,
    }
}

} // verus!
