//! What a frame is made of.
//!
//! Drawing works out what to paint and where; painting it is left to whoever
//! owns the terminal.

use vstd::prelude::*;

use crate::app::Sort;
use crate::docker::stats::Percent;
use crate::geometry::Rect;
use crate::text::{owned, put};
use crate::ui::layout::Constraint;
use crate::ui::theme::{plain, Color, Style};
use crate::util::format::text_width;

verus! {

broadcast use vstd::string::group_string_axioms;

/// A style that came with the text, from the escape codes in it.
#[derive(Debug, Clone, PartialEq, Eq)]
pub struct AnsiStyle {
    /// The text colour, by name, if one is asked for.
    pub fg: Option<String>,
    /// The background, by name, if one is asked for.
    pub bg: Option<String>,
    /// The bits of the modifiers that are switched on.
    pub added: u16,
    /// The bits of the modifiers that are switched off.
    pub removed: u16,
}

/// The mathematical value of an [`AnsiStyle`].
pub struct AnsiStyleView {
    pub fg: Option<Seq<char>>,
    pub bg: Option<Seq<char>>,
    pub added: u16,
    pub removed: u16,
}

impl DeepView for AnsiStyle {
    type V = AnsiStyleView;

    open spec fn deep_view(&self) -> AnsiStyleView {
        AnsiStyleView {
            fg: self.fg.deep_view(),
            bg: self.bg.deep_view(),
            added: self.added,
            removed: self.removed,
        }
    }
}

/// How a piece of text is drawn.
#[derive(Debug, Clone, PartialEq, Eq)]
pub enum Ink {
    Theme(Style),
    Ansi(AnsiStyle),
}

/// The mathematical value of an [`Ink`].
pub enum InkView {
    Theme(Style),
    Ansi(AnsiStyleView),
}

impl DeepView for Ink {
    type V = InkView;

    open spec fn deep_view(&self) -> InkView {
        match self {
            Ink::Theme(style) => InkView::Theme(*style),
            Ink::Ansi(style) => InkView::Ansi(style.deep_view()),
        }
    }
}

/// A piece of text drawn in one way.
#[derive(Debug, Clone, PartialEq, Eq)]
pub struct Span {
    pub text: String,
    pub ink: Ink,
}

/// The mathematical value of a [`Span`].
pub struct SpanView {
    pub text: Seq<char>,
    pub ink: InkView,
}

impl DeepView for Span {
    type V = SpanView;

    open spec fn deep_view(&self) -> SpanView {
        SpanView { text: self.text@, ink: self.ink.deep_view() }
    }
}

/// Text in a style of the theme.
pub open spec fn sp(text: Seq<char>, style: Style) -> SpanView {
    SpanView { text, ink: InkView::Theme(style) }
}

/// Text as it comes.
pub open spec fn raw(text: Seq<char>) -> SpanView {
    sp(text, plain())
}

/// Text in a style of the theme.
pub fn span(text: String, style: Style) -> (out: Span)
    ensures
        out.deep_view() == sp(text@, style),
{
    Span { text, ink: Ink::Theme(style) }
}

/// Text in a style of the theme.
pub fn styled(text: &str, style: Style) -> (out: Span)
    ensures
        out.deep_view() == sp(text@, style),
{
    Span { text: owned(text), ink: Ink::Theme(style) }
}

/// Text as it comes.
pub fn unstyled(text: &str) -> (out: Span)
    ensures
        out.deep_view() == raw(text@),
{
    styled(text, Style::default())
}

/// Where a line sits within its space.
#[derive(Debug, Clone, Copy, PartialEq, Eq, Structural)]
pub enum Alignment {
    Left,
    Center,
    Right,
}

/// A line of text.
#[derive(Debug, Clone, PartialEq, Eq)]
pub struct Line {
    pub spans: Vec<Span>,
    pub align: Alignment,
    /// Drawn under the whole line.
    pub style: Style,
}

/// The mathematical value of a [`Line`].
pub struct LineView {
    pub spans: Seq<SpanView>,
    pub align: Alignment,
    pub style: Style,
}

impl DeepView for Line {
    type V = LineView;

    open spec fn deep_view(&self) -> LineView {
        LineView { spans: self.spans.deep_view(), align: self.align, style: self.style }
    }
}

/// Spans in a line.
pub open spec fn ln(spans: Seq<SpanView>) -> LineView {
    LineView { spans, align: Alignment::Left, style: plain() }
}

/// Spans in a line that sits somewhere.
pub open spec fn ln_at(spans: Seq<SpanView>, align: Alignment) -> LineView {
    LineView { spans, align, style: plain() }
}

/// An empty line.
pub open spec fn gap() -> LineView {
    ln(seq![raw(""@)])
}

/// Spans in a line.
pub fn line(spans: Vec<Span>) -> (out: Line)
    ensures
        out.deep_view() == ln(spans.deep_view()),
{
    Line { spans, align: Alignment::Left, style: Style::default() }
}

/// Spans in a line that sits somewhere.
pub fn line_at(spans: Vec<Span>, align: Alignment) -> (out: Line)
    ensures
        out.deep_view() == ln_at(spans.deep_view(), align),
{
    Line { spans, align, style: Style::default() }
}

/// An empty line.
pub fn blank_line() -> (out: Line)
    ensures
        out.deep_view() == gap(),
{
    line(one(unstyled("")))
}

/// One span.
pub fn one(a: Span) -> (out: Vec<Span>)
    ensures
        out.deep_view() == seq![a.deep_view()],
{
    let mut out: Vec<Span> = Vec::new();
    assert(out.deep_view() =~= Seq::<SpanView>::empty());
    put(&mut out, a);
    out
}

/// Two spans.
pub fn two(a: Span, b: Span) -> (out: Vec<Span>)
    ensures
        out.deep_view() == seq![a.deep_view(), b.deep_view()],
{
    let mut out = one(a);
    put(&mut out, b);
    out
}

/// Three spans.
pub fn three(a: Span, b: Span, c: Span) -> (out: Vec<Span>)
    ensures
        out.deep_view() == seq![a.deep_view(), b.deep_view(), c.deep_view()],
{
    let mut out = two(a, b);
    put(&mut out, c);
    out
}

/// The cells that some spans take.
pub open spec fn spans_cells(spans: Seq<SpanView>) -> nat
    decreases spans.len(),
{
    if spans.len() == 0 {
        0
    } else {
        spans_cells(spans.drop_last()) + text_width(spans.last().text)
    }
}

/// A row of a table.
#[derive(Debug, Clone, PartialEq, Eq)]
pub struct Row {
    pub cells: Vec<Line>,
    pub bg: Option<Color>,
}

/// The mathematical value of a [`Row`].
pub struct RowView {
    pub cells: Seq<LineView>,
    pub bg: Option<Color>,
}

impl DeepView for Row {
    type V = RowView;

    open spec fn deep_view(&self) -> RowView {
        RowView { cells: self.cells.deep_view(), bg: self.bg }
    }
}

/// A table column: what it's called, how it aligns, and which sort clicking its
/// header selects (`None` for columns you can't sort by).
#[derive(Debug, Clone, Copy, PartialEq, Eq)]
pub struct Col {
    pub title: &'static str,
    pub align: Alignment,
    pub sort: Option<Sort>,
}

/// The mathematical value of a [`Col`].
pub struct ColView {
    pub title: Seq<char>,
    pub align: Alignment,
    pub sort: Option<Sort>,
}

impl DeepView for Col {
    type V = ColView;

    open spec fn deep_view(&self) -> ColView {
        ColView { title: self.title@, align: self.align, sort: self.sort }
    }
}

/// A table.
#[derive(Debug, PartialEq, Eq)]
pub struct Table {
    pub cols: Vec<Col>,
    pub constraints: Vec<Constraint>,
    pub header: Vec<Line>,
    pub rows: Vec<Row>,
    /// Drawn over the selected row.
    pub highlight: Style,
    pub selected: Option<usize>,
    /// The first row in view, as far as that keeps the selection in view.
    pub offset: usize,
}

/// The mathematical value of a [`Table`].
pub struct TableView {
    pub cols: Seq<ColView>,
    pub constraints: Seq<Constraint>,
    pub header: Seq<LineView>,
    pub rows: Seq<RowView>,
    pub highlight: Style,
    pub selected: Option<int>,
    pub offset: usize,
}

impl DeepView for Table {
    type V = TableView;

    open spec fn deep_view(&self) -> TableView {
        TableView {
            cols: self.cols.deep_view(),
            constraints: self.constraints@,
            header: self.header.deep_view(),
            rows: self.rows.deep_view(),
            highlight: self.highlight,
            selected: match self.selected {
                Some(k) => Some(k as int),
                None => None,
            },
            offset: self.offset,
        }
    }
}

/// A box: its border, what it is filled with, and what stands in its top edge.
#[derive(Debug, PartialEq, Eq)]
pub struct Block {
    /// Whether the border has to make do with ASCII.
    pub ascii: bool,
    pub border: Style,
    pub fill: Style,
    pub titles: Vec<Line>,
}

/// The mathematical value of a [`Block`].
pub struct BlockView {
    pub ascii: bool,
    pub border: Style,
    pub fill: Style,
    pub titles: Seq<LineView>,
}

impl DeepView for Block {
    type V = BlockView;

    open spec fn deep_view(&self) -> BlockView {
        BlockView {
            ascii: self.ascii,
            border: self.border,
            fill: self.fill,
            titles: self.titles.deep_view(),
        }
    }
}

/// What happens to a line that is too long.
#[derive(Debug, Clone, Copy, PartialEq, Eq, Structural)]
pub enum Wrap {
    /// It is cut.
    Cut,
    /// It goes on below, space and all.
    Keep,
    /// It goes on below, without the space that leads there.
    Trim,
}

/// A bar filled to some share of its length.
#[derive(Debug, PartialEq, Eq)]
pub struct Gauge {
    /// Whether the bar has to make do with ASCII.
    pub ascii: bool,
    pub filled: Style,
    pub unfilled: Style,
    pub percent: Percent,
    pub label: Span,
}

/// The mathematical value of a [`Gauge`].
pub struct GaugeView {
    pub ascii: bool,
    pub filled: Style,
    pub unfilled: Style,
    pub percent: Percent,
    pub label: SpanView,
}

impl DeepView for Gauge {
    type V = GaugeView;

    open spec fn deep_view(&self) -> GaugeView {
        GaugeView {
            ascii: self.ascii,
            filled: self.filled,
            unfilled: self.unfilled,
            percent: self.percent,
            label: self.label.deep_view(),
        }
    }
}

/// Something to paint.
#[derive(Debug, PartialEq, Eq)]
pub enum Widget {
    /// Nothing, over whatever is there.
    Clear,
    Block(Block),
    Text { lines: Vec<Line>, wrap: Wrap, style: Style },
    Table(Table),
    Gauge(Gauge),
    Scrollbar { ascii: bool, length: usize, position: usize, style: Style },
}

/// The mathematical value of a [`Widget`].
pub enum WidgetView {
    Clear,
    Block(BlockView),
    Text { lines: Seq<LineView>, wrap: Wrap, style: Style },
    Table(TableView),
    Gauge(GaugeView),
    Scrollbar { ascii: bool, length: usize, position: usize, style: Style },
}

impl DeepView for Widget {
    type V = WidgetView;

    open spec fn deep_view(&self) -> WidgetView {
        match self {
            Widget::Clear => WidgetView::Clear,
            Widget::Block(b) => WidgetView::Block(b.deep_view()),
            Widget::Text { lines, wrap, style } => WidgetView::Text {
                lines: lines.deep_view(),
                wrap: *wrap,
                style: *style,
            },
            Widget::Table(t) => WidgetView::Table(t.deep_view()),
            Widget::Gauge(g) => WidgetView::Gauge(g.deep_view()),
            Widget::Scrollbar { ascii, length, position, style } => WidgetView::Scrollbar {
                ascii: *ascii,
                length: *length,
                position: *position,
                style: *style,
            },
        }
    }
}

/// Something to paint, and where.
#[derive(Debug, PartialEq, Eq)]
pub struct Paint {
    pub area: Rect,
    pub widget: Widget,
}

/// The mathematical value of a [`Paint`].
pub struct PaintView {
    pub area: Rect,
    pub widget: WidgetView,
}

impl DeepView for Paint {
    type V = PaintView;

    open spec fn deep_view(&self) -> PaintView {
        PaintView { area: self.area, widget: self.widget.deep_view() }
    }
}

/// Lines of text, cut where they are too long.
pub open spec fn text_in(area: Rect, lines: Seq<LineView>) -> PaintView {
    PaintView {
        area,
        widget: WidgetView::Text { lines, wrap: Wrap::Cut, style: plain() },
    }
}

/// One line of text.
pub open spec fn line_in(area: Rect, line: LineView) -> PaintView {
    text_in(area, seq![line])
}

/// A box.
pub open spec fn block_in(area: Rect, block: BlockView) -> PaintView {
    PaintView { area, widget: WidgetView::Block(block) }
}

/// Lines of text, cut where they are too long.
pub fn paint_lines(area: Rect, lines: Vec<Line>) -> (out: Paint)
    ensures
        out.deep_view() == text_in(area, lines.deep_view()),
{
    Paint { area, widget: Widget::Text { lines, wrap: Wrap::Cut, style: Style::default() } }
}

/// One line of text.
pub fn paint_line(area: Rect, l: Line) -> (out: Paint)
    ensures
        out.deep_view() == line_in(area, l.deep_view()),
{
    paint_lines(area, one_line(l))
}

/// A box.
pub fn paint_block(area: Rect, block: Block) -> (out: Paint)
    ensures
        out.deep_view() == block_in(area, block.deep_view()),
{
    Paint { area, widget: Widget::Block(block) }
}

/// One line.
pub fn one_line(l: Line) -> (out: Vec<Line>)
    ensures
        out.deep_view() == seq![l.deep_view()],
{
    let mut out: Vec<Line> = Vec::new();
    assert(out.deep_view() =~= Seq::<LineView>::empty());
    put(&mut out, l);
    out
}

/// No lines yet.
pub fn no_lines() -> (out: Vec<Line>)
    ensures
        out.deep_view() == Seq::<LineView>::empty(),
{
    let out: Vec<Line> = Vec::new();
    assert(out.deep_view() =~= Seq::<LineView>::empty());
    out
}

/// No spans yet.
pub fn no_spans() -> (out: Vec<Span>)
    ensures
        out.deep_view() == Seq::<SpanView>::empty(),
{
    let out: Vec<Span> = Vec::new();
    assert(out.deep_view() =~= Seq::<SpanView>::empty());
    out
}

/// Nothing painted yet.
pub fn no_paint() -> (out: Vec<Paint>)
    ensures
        out.deep_view() == Seq::<PaintView>::empty(),
{
    let out: Vec<Paint> = Vec::new();
    assert(out.deep_view() =~= Seq::<PaintView>::empty());
    out
}

/// One thing painted after another.
pub fn paint_all(first: &mut Vec<Paint>, more: Vec<Paint>)
    ensures
        final(first).deep_view() == old(first).deep_view() + more.deep_view(),
{
    let ghost a = first.deep_view();
    let ghost b = more.deep_view();
    let mut more = more;
    let ghost mut n: int = 0;
    assert(a + b.take(0) =~= a);
    assert(b.skip(0) =~= b);
    while more.len() > 0
        invariant
            0 <= n <= b.len(),
            more.deep_view() == b.skip(n),
            more@.len() == b.len() - n,
            first.deep_view() == a + b.take(n),
        decreases more.len(),
    {
        assert(b.skip(n)[0] == b[n]);
        assert(more.deep_view()[0] == more@[0].deep_view());
        let ghost before = more.deep_view();
        let p = more.remove(0);
        assert(more.deep_view() =~= before.drop_first());
        put(first, p);
        proof {
            assert(b.skip(n).drop_first() =~= b.skip(n + 1));
            assert((a + b.take(n)).push(b[n]) =~= a + b.take(n + 1));
            n = n + 1;
        }
    }
    assert(b.take(b.len() as int) =~= b);
}

} // verus!
