//! Rendering a row of cells as text or as styled spans.

use vstd::prelude::*;
use vstd::string::StringExecFns;
use super::state::{
    Cell, Format, FormattedLine, LineModel, Span, SpanModel, Style, span_models,
};
use super::vt::{PennedCell, pen_colors, pen_rendition, plain_row};

verus! {

/// `String::push` appends one character to the end of the string.
pub assume_specification[ String::push ](s: &mut String, ch: char)
    ensures
        final(s)@ == old(s)@.push(ch),
;

/// The text of a row: the characters of its cells, in order, without the
/// trailing halves of wide characters.
pub open spec fn text_of(cells: Seq<Cell>) -> Seq<char>
    decreases cells.len(),
{
    if cells.len() == 0 {
        Seq::empty()
    } else if cells.last().width != 0 {
        text_of(cells.drop_last()).push(cells.last().ch)
    } else {
        text_of(cells.drop_last())
    }
}

/// The spans after one more cell: a cell that is not shown changes nothing,
/// a cell in the rendition of the last span extends it, and any other cell
/// opens a new span.
pub open spec fn spans_with(spans: Seq<SpanModel>, cell: Cell) -> Seq<SpanModel> {
    if !cell.shown() {
        spans
    } else if spans.len() > 0 && spans.last().style == cell.style {
        spans.drop_last().push(
            SpanModel { text: spans.last().text.push(cell.ch), style: cell.style },
        )
    } else {
        spans.push(SpanModel { text: seq![cell.ch], style: cell.style })
    }
}

/// The styled spans of a row: its shown cells, grouped into maximal runs of
/// equal rendition.
pub open spec fn spans_of(cells: Seq<Cell>) -> Seq<SpanModel>
    decreases cells.len(),
{
    if cells.len() == 0 {
        Seq::empty()
    } else {
        spans_with(spans_of(cells.drop_last()), cells.last())
    }
}

/// The rendering of a row in the given format.
pub open spec fn rendered(cells: Seq<Cell>, styled: bool) -> LineModel {
    if styled {
        LineModel::Styled(spans_of(cells))
    } else {
        LineModel::Plain(text_of(cells))
    }
}

/// The characters of the shown cells of a row, in order.
pub open spec fn shown_text(cells: Seq<Cell>) -> Seq<char>
    decreases cells.len(),
{
    if cells.len() == 0 {
        Seq::empty()
    } else if cells.last().shown() {
        shown_text(cells.drop_last()).push(cells.last().ch)
    } else {
        shown_text(cells.drop_last())
    }
}

/// The texts of a sequence of spans, joined in order.
pub open spec fn joined(spans: Seq<SpanModel>) -> Seq<char>
    decreases spans.len(),
{
    if spans.len() == 0 {
        Seq::empty()
    } else {
        joined(spans.drop_last()) + spans.last().text
    }
}

/// The spans of a row, joined, spell the characters of its shown cells:
/// grouping loses no character, adds none, and keeps their order.
pub proof fn lemma_spans_spell_shown_text(cells: Seq<Cell>)
    ensures
        joined(spans_of(cells)) == shown_text(cells),
    decreases cells.len(),
{
    if cells.len() > 0 {
        let before = cells.drop_last();
        let cell = cells.last();
        let spans = spans_of(before);
        lemma_spans_spell_shown_text(before);
        if !cell.shown() {
        } else if spans.len() > 0 && spans.last().style == cell.style {
            let grown = SpanModel { text: spans.last().text.push(cell.ch), style: cell.style };
            let after = spans.drop_last().push(grown);
            assert(after.drop_last() == spans.drop_last());
            assert(joined(after) == joined(spans.drop_last()) + grown.text);
            assert(joined(spans) == joined(spans.drop_last()) + spans.last().text);
            assert(joined(spans.drop_last()) + spans.last().text.push(cell.ch) == (joined(
                spans.drop_last(),
            ) + spans.last().text).push(cell.ch));
        } else {
            let opened = SpanModel { text: seq![cell.ch], style: cell.style };
            let after = spans.push(opened);
            assert(after.drop_last() == spans);
            assert(joined(spans) + seq![cell.ch] == joined(spans).push(cell.ch));
        }
    }
}

/// No span of a row is empty, and neighbouring spans differ in rendition:
/// the runs are maximal.
pub proof fn lemma_spans_are_maximal_runs(cells: Seq<Cell>)
    ensures
        forall|i: int|
            0 <= i < spans_of(cells).len() ==> #[trigger] spans_of(cells)[i].text.len() > 0,
        forall|i: int|
            0 < i < spans_of(cells).len() ==> (#[trigger] spans_of(cells)[i]).style != spans_of(
                cells,
            )[i - 1].style,
    decreases cells.len(),
{
    if cells.len() > 0 {
        lemma_spans_are_maximal_runs(cells.drop_last());
    }
}

/// A row without shown cells has no spans.
pub proof fn lemma_spans_of_blank_row(cells: Seq<Cell>)
    requires
        forall|i: int| 0 <= i < cells.len() ==> !(#[trigger] cells[i]).shown(),
    ensures
        spans_of(cells).len() == 0,
    decreases cells.len(),
{
    if cells.len() > 0 {
        lemma_spans_of_blank_row(cells.drop_last());
    }
}

/// Renders a row of cells as its text.
pub fn line_text(cells: &Vec<Cell>) -> (text: String)
    ensures
        text@ == text_of(cells@),
{
    let mut text = String::new();
    let mut i: usize = 0;
    while i < cells.len()
        invariant
            i <= cells.len(),
            text@ == text_of(cells@.take(i as int)),
        decreases cells.len() - i,
    {
        let cell = cells[i];
        proof {
            assert(cells@.take(i + 1).drop_last() == cells@.take(i as int));
        }
        if cell.width != 0 {
            text.push(cell.ch);
        }
        i += 1;
    }
    proof {
        assert(cells@.take(i as int) == cells@);
    }
    text
}

/// Renders a row of cells as styled spans.
pub fn line_to_spans(cells: &Vec<Cell>) -> (spans: Vec<Span>)
    ensures
        span_models(spans@) == spans_of(cells@),
{
    let mut spans: Vec<Span> = Vec::new();
    let mut current_text = String::new();
    let mut current_style: Option<Style> = None;
    let mut i: usize = 0;
    while i < cells.len()
        invariant
            i <= cells.len(),
            current_style is None ==> spans@.len() == 0 && spans_of(cells@.take(i as int)).len()
                == 0,
            current_style is Some ==> spans_of(cells@.take(i as int)) == span_models(spans@).push(
                SpanModel { text: current_text@, style: current_style->0 },
            ),
        decreases cells.len() - i,
    {
        let cell = cells[i];
        proof {
            assert(cells@.take(i + 1).drop_last() == cells@.take(i as int));
        }
        let ghost before = spans_of(cells@.take(i as int));
        if cell.is_shown() {
            match current_style {
                None => {
                    current_style = Some(cell.style);
                    current_text = String::new();
                    current_text.push(cell.ch);
                    proof {
                        assert(span_models(spans@) == Seq::<SpanModel>::empty());
                        assert(current_text@ == seq![cell.ch]);
                    }
                },
                Some(style) => {
                    if style.same(&cell.style) {
                        current_text.push(cell.ch);
                        proof {
                            assert(before.drop_last() == span_models(spans@));
                        }
                    } else {
                        let ghost closed = span_models(spans@);
                        let text = current_text;
                        spans.push(Span { text, style });
                        current_text = String::new();
                        current_text.push(cell.ch);
                        current_style = Some(cell.style);
                        proof {
                            assert(span_models(spans@) == closed.push(
                                SpanModel { text: text@, style },
                            ));
                            assert(current_text@ == seq![cell.ch]);
                        }
                    }
                },
            }
        }
        i += 1;
    }
    proof {
        assert(cells@.take(i as int) == cells@);
    }
    match current_style {
        None => {
            proof {
                assert(span_models(spans@) == spans_of(cells@));
            }
        },
        Some(style) => {
            let ghost closed = span_models(spans@);
            spans.push(Span { text: current_text, style });
            proof {
                assert(span_models(spans@) == closed.push(
                    SpanModel { text: current_text@, style },
                ));
            }
        },
    }
    spans
}

/// The rendition of a pen: the colors and the attributes that it holds.
pub(crate) fn pen_to_style(pen: &avt::Pen) -> (style: Style)
    ensures
        style == pen_rendition(*pen),
{
    let (fg, bg) = pen_colors(pen);
    Style {
        fg,
        bg,
        bold: pen.is_bold(),
        faint: pen.is_faint(),
        italic: pen.is_italic(),
        underline: pen.is_underline(),
        strikethrough: pen.is_strikethrough(),
        blink: pen.is_blink(),
        inverse: pen.is_inverse(),
    }
}

/// A row of the emulator as plain cells: each keeps its character and its
/// width, and has the rendition of its pen.
pub(crate) fn plain_cells(row: &Vec<PennedCell>) -> (cells: Vec<Cell>)
    ensures
        cells@ == plain_row(row@),
{
    let mut cells: Vec<Cell> = Vec::new();
    let mut i: usize = 0;
    while i < row.len()
        invariant
            i <= row.len(),
            cells@ == plain_row(row@.take(i as int)),
        decreases row.len() - i,
    {
        let raw = &row[i];
        cells.push(Cell { ch: raw.ch, width: raw.width, style: pen_to_style(&raw.pen) });
        proof {
            assert(row@.take(i + 1) == row@.take(i as int).push(row@[i as int]));
            assert(plain_row(row@.take(i + 1)) == plain_row(row@.take(i as int)).push(
                row@[i as int].plain(),
            ));
        }
        i += 1;
    }
    proof {
        assert(row@.take(row@.len() as int) == row@);
    }
    cells
}

/// A rendered line in a format: in the plain format styled spans give way
/// to their joined text; in the styled format the line stays as it is,
/// since a text does not tell its renditions.
pub open spec fn line_in_format(line: LineModel, styled: bool) -> LineModel {
    match line {
        LineModel::Styled(spans) => if styled {
            line
        } else {
            LineModel::Plain(joined(spans))
        },
        LineModel::Plain(_) => line,
    }
}

/// The texts of the spans, joined in order.
pub fn joined_text(spans: &Vec<Span>) -> (text: String)
    ensures
        text@ == joined(span_models(spans@)),
{
    let mut text = String::new();
    let mut i: usize = 0;
    while i < spans.len()
        invariant
            i <= spans.len(),
            text@ == joined(span_models(spans@.take(i as int))),
        decreases spans.len() - i,
    {
        proof {
            let upto = span_models(spans@.take(i + 1));
            assert(upto.drop_last() == span_models(spans@.take(i as int)));
            assert(upto.last() == spans@[i as int]@);
        }
        text.append(spans[i].text.as_str());
        i += 1;
    }
    proof {
        assert(spans@.take(spans@.len() as int) == spans@);
    }
    text
}

impl FormattedLine {
    /// The line in the given format.
    pub fn in_format(self, format: Format) -> (line: FormattedLine)
        ensures
            line@ == line_in_format(self@, format == Format::Styled),
    {
        match self {
            FormattedLine::Styled(spans) => {
                if format.is_styled() {
                    FormattedLine::Styled(spans)
                } else {
                    FormattedLine::Plain(joined_text(&spans))
                }
            },
            FormattedLine::Plain(text) => FormattedLine::Plain(text),
        }
    }
}

/// Renders a row of cells: as styled spans if `styled`, as text otherwise.
pub fn format_line(cells: &Vec<Cell>, styled: bool) -> (line: FormattedLine)
    ensures
        line@ == rendered(cells@, styled),
{
    if styled {
        FormattedLine::Styled(line_to_spans(cells))
    } else {
        FormattedLine::Plain(line_text(cells))
    }
}

} // verus!
