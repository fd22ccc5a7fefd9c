//! Plain values that describe the emulated terminal: cells, styled lines,
//! queries and their answers.

use vstd::prelude::*;

verus! {

/// How lines are rendered in answers and events.
#[derive(Debug, Clone, Copy, PartialEq, Eq, Structural)]
pub enum Format {
    /// Each line is its text.
    Plain,
    /// Each line is a sequence of styled spans.
    Styled,
}

impl Default for Format {
    fn default() -> (format: Format)
        ensures
            format == Format::Plain,
    {
        Format::Plain
    }
}

impl Format {
    /// Whether lines carry their styling.
    pub fn is_styled(&self) -> (styled: bool)
        ensures
            styled == (*self == Format::Styled),
    {
        match self {
            Format::Plain => false,
            Format::Styled => true,
        }
    }
}

/// A terminal color: a palette index or a direct RGB triple.
#[derive(Debug, Clone, Copy, PartialEq, Eq, Structural)]
pub enum Color {
    Indexed(u8),
    Rgb { r: u8, g: u8, b: u8 },
}

impl Color {
    /// Equality of two colors.
    pub fn same(&self, other: &Color) -> (eq: bool)
        ensures
            eq == (*self == *other),
    {
        match (self, other) {
            (Color::Indexed(a), Color::Indexed(b)) => *a == *b,
            (Color::Rgb { r: r1, g: g1, b: b1 }, Color::Rgb { r: r2, g: g2, b: b2 }) => {
                *r1 == *r2 && *g1 == *g2 && *b1 == *b2
            },
            _ => false,
        }
    }
}

/// Equality of two optional colors.
pub fn same_color(a: &Option<Color>, b: &Option<Color>) -> (eq: bool)
    ensures
        eq == (*a == *b),
{
    match (a, b) {
        (None, None) => true,
        (Some(x), Some(y)) => x.same(y),
        _ => false,
    }
}

/// The rendition of a cell or span.
#[derive(Debug, Clone, Copy, PartialEq, Eq)]
pub struct Style {
    pub fg: Option<Color>,
    pub bg: Option<Color>,
    pub bold: bool,
    pub faint: bool,
    pub italic: bool,
    pub underline: bool,
    pub strikethrough: bool,
    pub blink: bool,
    pub inverse: bool,
}

impl Style {
    /// The rendition with no colors and no attributes.
    pub open spec fn plain() -> Style {
        Style {
            fg: None,
            bg: None,
            bold: false,
            faint: false,
            italic: false,
            underline: false,
            strikethrough: false,
            blink: false,
            inverse: false,
        }
    }

    /// Equality of two renditions, field by field.
    pub fn same(&self, other: &Style) -> (eq: bool)
        ensures
            eq == (*self == *other),
    {
        same_color(&self.fg, &other.fg) && same_color(&self.bg, &other.bg) && self.bold
            == other.bold && self.faint == other.faint && self.italic == other.italic
            && self.underline == other.underline && self.strikethrough == other.strikethrough
            && self.blink == other.blink && self.inverse == other.inverse
    }
}

impl Default for Style {
    fn default() -> (style: Style)
        ensures
            style == Style::plain(),
    {
        Style {
            fg: None,
            bg: None,
            bold: false,
            faint: false,
            italic: false,
            underline: false,
            strikethrough: false,
            blink: false,
            inverse: false,
        }
    }
}

/// One grid position: its character, how many columns it occupies, and its
/// rendition. A width of zero marks the trailing half of a wide character.
#[derive(Debug, Clone, Copy, PartialEq, Eq)]
pub struct Cell {
    pub ch: char,
    pub width: u8,
    pub style: Style,
}

impl Cell {
    /// Whether the cell contributes a character to its line.
    pub open spec fn shown(self) -> bool {
        self.ch != '\0' && self.width != 0
    }

    /// Whether the cell contributes a character to its line.
    pub fn is_shown(&self) -> (shown: bool)
        ensures
            shown == self.shown(),
    {
        self.ch != '\0' && self.width != 0
    }

    /// Equality of two cells, field by field.
    pub fn same(&self, other: &Cell) -> (eq: bool)
        ensures
            eq == (*self == *other),
    {
        self.ch == other.ch && self.width == other.width && self.style.same(&other.style)
    }
}

/// A run of text in one rendition, as a mathematical value.
pub struct SpanModel {
    pub text: Seq<char>,
    pub style: Style,
}

/// A run of text in one rendition.
#[derive(Debug, Clone, PartialEq, Eq)]
pub struct Span {
    pub text: String,
    pub style: Style,
}

impl View for Span {
    type V = SpanModel;

    open spec fn view(&self) -> SpanModel {
        SpanModel { text: self.text@, style: self.style }
    }
}

/// The models of a sequence of spans.
pub open spec fn span_models(spans: Seq<Span>) -> Seq<SpanModel> {
    spans.map_values(|s: Span| s@)
}

/// A rendered line, as a mathematical value.
pub enum LineModel {
    Plain(Seq<char>),
    Styled(Seq<SpanModel>),
}

/// A rendered line: its text, or its styled spans in order.
#[derive(Debug, Clone, PartialEq, Eq)]
pub enum FormattedLine {
    Plain(String),
    Styled(Vec<Span>),
}

impl View for FormattedLine {
    type V = LineModel;

    open spec fn view(&self) -> LineModel {
        match self {
            FormattedLine::Plain(text) => LineModel::Plain(text@),
            FormattedLine::Styled(spans) => LineModel::Styled(span_models(spans@)),
        }
    }
}

/// The models of a sequence of rendered lines.
pub open spec fn line_models(lines: Seq<FormattedLine>) -> Seq<LineModel> {
    lines.map_values(|l: FormattedLine| l@)
}

/// The cursor: zero-based row and column, and whether it is shown.
#[derive(Debug, Clone, Copy, PartialEq, Eq, Structural)]
pub struct Cursor {
    pub row: usize,
    pub col: usize,
    pub visible: bool,
}

/// What the screen looked like at one moment, as a mathematical value.
pub struct ScreenModel {
    pub epoch: u64,
    pub lines: Seq<LineModel>,
    pub cursor: Cursor,
    pub cols: usize,
    pub rows: usize,
    pub alternate_active: bool,
    pub total_lines: usize,
    pub first_line_index: usize,
}

/// The visible grid with its cursor and size. `total_lines` counts the
/// history and the visible rows together; `first_line_index` is the position
/// of the first visible row among them.
#[derive(Debug, Clone, PartialEq, Eq)]
pub struct ScreenResponse {
    pub epoch: u64,
    pub lines: Vec<FormattedLine>,
    pub cursor: Cursor,
    pub cols: usize,
    pub rows: usize,
    pub alternate_active: bool,
    pub total_lines: usize,
    pub first_line_index: usize,
}

impl View for ScreenResponse {
    type V = ScreenModel;

    open spec fn view(&self) -> ScreenModel {
        ScreenModel {
            epoch: self.epoch,
            lines: line_models(self.lines@),
            cursor: self.cursor,
            cols: self.cols,
            rows: self.rows,
            alternate_active: self.alternate_active,
            total_lines: self.total_lines,
            first_line_index: self.first_line_index,
        }
    }
}

/// One page of the line buffer, as a mathematical value.
pub struct ScrollbackModel {
    pub epoch: u64,
    pub lines: Seq<LineModel>,
    pub total_lines: usize,
    pub offset: usize,
}

/// One page of the line buffer, history first and visible rows last.
#[derive(Debug, Clone, PartialEq, Eq)]
pub struct ScrollbackResponse {
    pub epoch: u64,
    pub lines: Vec<FormattedLine>,
    pub total_lines: usize,
    pub offset: usize,
}

impl View for ScrollbackResponse {
    type V = ScrollbackModel;

    open spec fn view(&self) -> ScrollbackModel {
        ScrollbackModel {
            epoch: self.epoch,
            lines: line_models(self.lines@),
            total_lines: self.total_lines,
            offset: self.offset,
        }
    }
}

/// The cursor at one moment.
#[derive(Debug, Clone, Copy, PartialEq, Eq, Structural)]
pub struct CursorResponse {
    pub epoch: u64,
    pub cursor: Cursor,
}

/// A question put to the emulator.
#[derive(Debug, Clone, Copy, PartialEq, Eq, Structural)]
pub enum Query {
    Screen { format: Format },
    Scrollback { format: Format, offset: usize, limit: usize },
    Cursor,
    Resize { cols: usize, rows: usize },
}

/// An answer of the emulator, as a mathematical value.
pub enum ResponseModel {
    Screen(ScreenModel),
    Scrollback(ScrollbackModel),
    Cursor(CursorResponse),
    Done,
}

/// An answer of the emulator.
#[derive(Debug, Clone, PartialEq, Eq)]
pub enum QueryResponse {
    Screen(ScreenResponse),
    Scrollback(ScrollbackResponse),
    Cursor(CursorResponse),
    Done,
}

impl View for QueryResponse {
    type V = ResponseModel;

    open spec fn view(&self) -> ResponseModel {
        match self {
            QueryResponse::Screen(screen) => ResponseModel::Screen(screen@),
            QueryResponse::Scrollback(page) => ResponseModel::Scrollback(page@),
            QueryResponse::Cursor(cursor) => ResponseModel::Cursor(*cursor),
            QueryResponse::Done => ResponseModel::Done,
        }
    }
}

/// The rows of a grid, each as a mathematical sequence of cells.
pub open spec fn row_models(rows: Seq<Vec<Cell>>) -> Seq<Seq<Cell>> {
    rows.map_values(|r: Vec<Cell>| r@)
}

/// The emulator's state as plain values, as a mathematical value.
pub struct GridModel {
    pub cols: usize,
    pub rows: usize,
    pub cursor: Cursor,
    pub alternate_active: bool,
    pub lines: Seq<Seq<Cell>>,
}

impl GridModel {
    /// How many lines lie above the visible rows.
    pub open spec fn history_len(self) -> int {
        if self.lines.len() >= self.rows {
            self.lines.len() - self.rows
        } else {
            0
        }
    }

    /// The visible rows: the last `rows` lines, or all of them if there are
    /// fewer.
    pub open spec fn visible(self) -> Seq<Seq<Cell>> {
        self.lines.skip(self.history_len())
    }
}

/// The emulator's state as plain values: its size, its cursor, which screen
/// is active, and every line of the active screen, history first and
/// visible rows last.
#[derive(Debug, Clone, PartialEq, Eq)]
pub struct Grid {
    pub cols: usize,
    pub rows: usize,
    pub cursor: Cursor,
    pub alternate_active: bool,
    pub lines: Vec<Vec<Cell>>,
}

impl View for Grid {
    type V = GridModel;

    open spec fn view(&self) -> GridModel {
        GridModel {
            cols: self.cols,
            rows: self.rows,
            cursor: self.cursor,
            alternate_active: self.alternate_active,
            lines: row_models(self.lines@),
        }
    }
}

} // verus!
