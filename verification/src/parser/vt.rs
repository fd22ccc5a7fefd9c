//! The outside terminal emulator, and how its state is read out as plain
//! values. Nothing in this file is proved: each item states what the
//! emulator's source shows, or nothing at all.
//!
//! What a terminal holds and what a pen holds are given names. The items
//! that read a terminal or a pen say which part of the named value they
//! return. What the parser and the terminal become by one step is given a
//! name for each step, since it is a function of the state before and of
//! what is fed; beside each name stand only the few facts that the source
//! plainly shows.

use vstd::prelude::*;
use super::state::{Cell, Color, Cursor, GridModel, Style};


verus! {

/// The emulator's screen state: both buffers, cursor, modes.
#[verifier::external_type_specification]
#[verifier::external_body]
pub struct ExTerminal(avt::terminal::Terminal);

/// The emulator's escape sequence parser.
#[verifier::external_type_specification]
#[verifier::external_body]
pub struct ExSequenceParser(avt::parser::Parser);

/// One operation that the sequence parser recognised.
#[verifier::external_type_specification]
#[verifier::external_body]
pub struct ExFunction(avt::parser::Function);

/// The rendition of a cell.
#[verifier::external_type_specification]
#[verifier::external_body]
pub struct ExPen(avt::Pen);

/// What a terminal holds: its size, its cursor, which buffer is active, and
/// every line of the active buffer, oldest first, as plain cells.
pub uninterp spec fn screen_state(terminal: avt::terminal::Terminal) -> GridModel;

/// What a pen holds: its two colors and its seven attributes.
pub uninterp spec fn pen_rendition(pen: avt::Pen) -> Style;

/// What the parser becomes by one character, and the operation that it
/// recognises by it, if any.
pub uninterp spec fn parsed(parser: avt::parser::Parser, input: char) -> (
    avt::parser::Parser,
    Option<avt::parser::Function>,
);

/// What a terminal becomes by one operation.
pub uninterp spec fn executed(
    terminal: avt::terminal::Terminal,
    fun: avt::parser::Function,
) -> avt::terminal::Terminal;

/// What a terminal becomes when the lines beyond its scrollback limit are
/// removed.
pub uninterp spec fn collected(terminal: avt::terminal::Terminal) -> avt::terminal::Terminal;

/// What a terminal becomes by a new size.
pub uninterp spec fn resized(
    terminal: avt::terminal::Terminal,
    cols: usize,
    rows: usize,
) -> avt::terminal::Terminal;

/// The terminal of a given size and scrollback limit before any output.
pub uninterp spec fn fresh_terminal(
    cols: usize,
    rows: usize,
    scrollback_limit: usize,
) -> avt::terminal::Terminal;

/// What an operation is, as far as the reports of wipes must know.
pub uninterp spec fn operation_of(fun: avt::parser::Function) -> Operation;

/// An operation of the emulator, as far as the reports of wipes must know.
#[derive(Debug, Clone, Copy, PartialEq, Eq, Structural)]
pub enum Operation {
    /// Erase the whole display.
    EraseDisplay,
    /// Erase the lines saved above the display.
    EraseSavedLines,
    /// Reset the terminal to its initial state.
    FullReset,
    /// Any other operation.
    Other,
}

/// A cell that nothing was written to: a space of one column in the plain
/// rendition.
pub open spec fn blank_cell() -> Cell {
    Cell { ch: ' ', width: 1, style: Style::plain() }
}

/// The state of a terminal before any output: the cursor at the origin
/// and shown, the primary screen active, no history, and every row blank.
pub open spec fn blank_grid(cols: usize, rows: usize) -> GridModel {
    GridModel {
        cols,
        rows,
        cursor: Cursor { row: 0, col: 0, visible: true },
        alternate_active: false,
        lines: Seq::new(rows as nat, |i: int| Seq::new(cols as nat, |j: int| blank_cell())),
    }
}

/// The most history lines that an emulator is made to keep. The emulator
/// reserves room for the whole limit at once when it is made, so a limit
/// is needed; this one is the library's own choice, far below what the
/// address space would allow, so that the reservation stays within what a
/// machine can give.
pub const MAX_SCROLLBACK: usize = 1_000_000;

/// `avt::parser::Parser::new` makes a parser in its ground state. Nothing is
/// claimed of it.
pub assume_specification[ avt::parser::Parser::new ]() -> (parser: avt::parser::Parser)
;

/// `avt::parser::Parser::feed` consumes one character and may recognise an
/// operation: the parser afterwards and the operation are what the parser
/// before and the character give.
pub assume_specification[ avt::parser::Parser::feed ](
    parser: &mut avt::parser::Parser,
    input: char,
) -> (op: Option<avt::parser::Function>)
    ensures
        (*final(parser), op) == parsed(*old(parser), input),
;

/// `avt::terminal::Terminal::execute` applies one operation to the screen
/// state: the terminal afterwards is what the terminal before and the
/// operation give.
pub assume_specification[ avt::terminal::Terminal::execute ](
    terminal: &mut avt::terminal::Terminal,
    fun: avt::parser::Function,
)
    ensures
        *final(terminal) == executed(*old(terminal), fun),
;

/// `avt::terminal::Terminal::size` returns the columns and rows that the
/// terminal holds, in that order.
pub assume_specification[ avt::terminal::Terminal::size ](
    terminal: &avt::terminal::Terminal,
) -> (size: (usize, usize))
    ensures
        size == (screen_state(*terminal).cols, screen_state(*terminal).rows),
;

/// `avt::terminal::Terminal::new` with a scrollback limit. It subtracts one
/// from the row count, and later operations on the terminal subtract one
/// from the column count, so a grid without rows or without columns is left
/// out; it reserves room for the whole scrollback limit, so a limit beyond
/// the bound is left out. A terminal of one column is in order: it never
/// holds a wide character. The new terminal has the size asked for, its
/// cursor at the origin and shown, the primary buffer active, and holds as
/// many lines as it has rows, each of as many blank cells in the default
/// pen as it has columns.
#[verifier::external_body]
pub(crate) fn new_terminal(cols: usize, rows: usize, scrollback_limit: usize) -> (terminal:
    avt::terminal::Terminal)
    requires
        cols > 0,
        rows > 0,
        scrollback_limit <= MAX_SCROLLBACK,
    ensures
        terminal == fresh_terminal(cols, rows, scrollback_limit),
        screen_state(terminal) == blank_grid(cols, rows),
{
    avt::terminal::Terminal::new((cols, rows), Some(scrollback_limit))
}

/// `avt::terminal::Terminal::resize`. It subtracts one from the new row
/// count, so a grid without rows is left out. It rewraps the lines to the
/// new width, and a line that holds a wide character cannot be cut down to
/// a single column, neither at once nor when the buffers are switched
/// later, so a grid of fewer than two columns is left out. The terminal
/// afterwards is what the terminal before and the new size give, and it has
/// the new size.
#[verifier::external_body]
pub(crate) fn resize_terminal(terminal: &mut avt::terminal::Terminal, cols: usize, rows: usize)
    requires
        cols > 1,
        rows > 0,
    ensures
        *final(terminal) == resized(*old(terminal), cols, rows),
        screen_state(*final(terminal)).cols == cols,
        screen_state(*final(terminal)).rows == rows,
{
    terminal.resize(cols, rows);
}

/// `avt::terminal::Terminal::gc` hands out the lines that exceed the
/// scrollback limit; dropping them removes them from the buffer. The
/// terminal afterwards is what the terminal before gives; its size, its
/// cursor and its active buffer are as before.
#[verifier::external_body]
pub(crate) fn trim_scrollback(terminal: &mut avt::terminal::Terminal)
    ensures
        *final(terminal) == collected(*old(terminal)),
        screen_state(*final(terminal)).cols == screen_state(*old(terminal)).cols,
        screen_state(*final(terminal)).rows == screen_state(*old(terminal)).rows,
        screen_state(*final(terminal)).cursor == screen_state(*old(terminal)).cursor,
        screen_state(*final(terminal)).alternate_active == screen_state(
            *old(terminal),
        ).alternate_active,
{
    drop(terminal.gc());
}

/// The variants of `avt::parser::Function`, told apart as far as the
/// reports of wipes must know: erasing the whole display, erasing the saved
/// lines, the reset to the initial state, and every other.
#[verifier::external_body]
pub(crate) fn operation(op: &avt::parser::Function) -> (kind: Operation)
    ensures
        kind == operation_of(*op),
{
    match op {
        avt::parser::Function::Ed(avt::parser::EdScope::All) => Operation::EraseDisplay,
        avt::parser::Function::Ed(avt::parser::EdScope::SavedLines) => Operation::EraseSavedLines,
        avt::parser::Function::Ris => Operation::FullReset,
        _ => Operation::Other,
    }
}

/// `avt::terminal::Terminal::cursor`, field by field: the cursor that the
/// terminal holds.
#[verifier::external_body]
pub(crate) fn capture_cursor(terminal: &avt::terminal::Terminal) -> (cursor: Cursor)
    ensures
        cursor == screen_state(*terminal).cursor,
{
    let cursor = terminal.cursor();
    Cursor { row: cursor.row, col: cursor.col, visible: cursor.visible }
}

/// `avt::terminal::Terminal::active_buffer_type`: whether the buffer that
/// the terminal holds as active is the alternate one.
#[verifier::external_body]
pub(crate) fn capture_alternate(terminal: &avt::terminal::Terminal) -> (alternate: bool)
    ensures
        alternate == screen_state(*terminal).alternate_active,
{
    match terminal.active_buffer_type() {
        avt::terminal::BufferType::Primary => false,
        avt::terminal::BufferType::Alternate => true,
    }
}

/// A cell as the emulator holds it: its character, the columns it
/// occupies, and its pen.
pub(crate) struct PennedCell {
    pub(crate) ch: char,
    pub(crate) width: u8,
    pub(crate) pen: avt::Pen,
}

impl PennedCell {
    /// The cell as plain values: its pen is replaced by what the pen holds.
    pub(crate) open spec fn plain(self) -> Cell {
        Cell { ch: self.ch, width: self.width, style: pen_rendition(self.pen) }
    }
}

/// A row of the emulator as plain cells.
pub(crate) open spec fn plain_row(row: Seq<PennedCell>) -> Seq<Cell> {
    row.map_values(|c: PennedCell| c.plain())
}

/// The rows of the emulator as plain cells.
pub(crate) open spec fn plain_rows(lines: Seq<Vec<PennedCell>>) -> Seq<Seq<Cell>> {
    lines.map_values(|row: Vec<PennedCell>| plain_row(row@))
}

/// `avt::terminal::Terminal::lines`, with `avt::Line::cells`,
/// `avt::Cell::char`, `avt::Cell::width` and `avt::Cell::pen`: every line of
/// the active buffer, oldest first, each as its cells in column order.
/// These, as plain cells, are the lines that the terminal holds. The
/// active buffer never holds fewer lines than the terminal has rows: it is
/// made with as many, every resize and every switch of buffers brings it to
/// the terminal's size, and the visible rows are found by subtracting the
/// row count from the line count.
#[verifier::external_body]
pub(crate) fn penned_lines(terminal: &avt::terminal::Terminal) -> (lines: Vec<Vec<PennedCell>>)
    ensures
        plain_rows(lines@) == screen_state(*terminal).lines,
        lines@.len() >= screen_state(*terminal).rows,
{
    let cell = |c: &avt::Cell| PennedCell { ch: c.char(), width: c.width(), pen: *c.pen() };
    terminal.lines().map(|line| line.cells().iter().map(cell).collect()).collect()
}

/// `avt::Pen::foreground` and `avt::Pen::background`, in that order, each
/// color by its variant and fields: the two colors that the pen holds.
#[verifier::external_body]
pub(crate) fn pen_colors(pen: &avt::Pen) -> (colors: (Option<Color>, Option<Color>))
    ensures
        colors == (pen_rendition(*pen).fg, pen_rendition(*pen).bg),
{
    let convert = |color| match color {
        avt::Color::Indexed(i) => Color::Indexed(i),
        avt::Color::RGB(rgb) => Color::Rgb { r: rgb.r, g: rgb.g, b: rgb.b },
    };
    (pen.foreground().map(convert), pen.background().map(convert))
}

/// `avt::Pen::is_bold`: whether the pen writes bold, as the pen holds it.
pub assume_specification[ avt::Pen::is_bold ](pen: &avt::Pen) -> (bold: bool)
    ensures
        bold == pen_rendition(*pen).bold,
;

/// `avt::Pen::is_faint`: whether the pen writes faint, as the pen holds it.
pub assume_specification[ avt::Pen::is_faint ](pen: &avt::Pen) -> (faint: bool)
    ensures
        faint == pen_rendition(*pen).faint,
;

/// `avt::Pen::is_italic`: whether the pen writes italic, as the pen holds it.
pub assume_specification[ avt::Pen::is_italic ](pen: &avt::Pen) -> (italic: bool)
    ensures
        italic == pen_rendition(*pen).italic,
;

/// `avt::Pen::is_underline`: whether the pen underlines, as the pen holds it.
pub assume_specification[ avt::Pen::is_underline ](pen: &avt::Pen) -> (underline: bool)
    ensures
        underline == pen_rendition(*pen).underline,
;

/// `avt::Pen::is_strikethrough`: whether the pen strikes through, as the pen holds it.
pub assume_specification[ avt::Pen::is_strikethrough ](pen: &avt::Pen) -> (strikethrough: bool)
    ensures
        strikethrough == pen_rendition(*pen).strikethrough,
;

/// `avt::Pen::is_blink`: whether the pen writes blinking, as the pen holds it.
pub assume_specification[ avt::Pen::is_blink ](pen: &avt::Pen) -> (blink: bool)
    ensures
        blink == pen_rendition(*pen).blink,
;

/// `avt::Pen::is_inverse`: whether the pen swaps foreground and background, as the pen holds it.
pub assume_specification[ avt::Pen::is_inverse ](pen: &avt::Pen) -> (inverse: bool)
    ensures
        inverse == pen_rendition(*pen).inverse,
;

/// What `String::from_utf8_lossy` makes of a byte sequence: its characters,
/// with the replacement character for each ill-formed part.
pub uninterp spec fn lossy_text(bytes: Seq<u8>) -> Seq<char>;

/// `String::from_utf8_lossy`, as the characters of its result.
#[verifier::external_body]
pub(crate) fn decode_lossy(bytes: &[u8]) -> (text: Vec<char>)
    ensures
        text@ == lossy_text(bytes@),
{
    String::from_utf8_lossy(bytes).chars().collect()
}

} // verus!
