//! Drawing.

pub mod ascii;
pub mod describing;
pub mod detail;
pub mod footer;
pub mod frame;
pub mod header;
pub mod laws;
pub mod layout;
pub mod logs;
pub mod overlay;
pub mod placing;
pub mod rows;
pub mod saying;
pub mod screen;
pub mod showing;
pub mod spelling;
pub mod tables;
pub mod theme;

use vstd::prelude::*;

pub use crate::ui::frame::draw;
pub use crate::ui::layout::{centered, column_widths};

use crate::action::{key_text, Key};
use crate::app::state::{part, App, AppState};
use crate::app::{Focus, Mode};
use crate::text::{cat2, cat3, chars_of, put, string_of};
use crate::ui::screen::{
    line, line_at, ln, ln_at, no_spans, one, one_line, raw, sp, span, spans_cells, styled, unstyled,
    Alignment, Block, BlockView, InkView, LineView, Line, Span, SpanView,
};
use crate::ui::theme::{ascii_key, asciify_key, plain, Glyphs, Style, Theme};
use crate::util::format::{cut_end_in, cut_start_in, truncate_in, truncate_start_in, width};
use crate::util::fuzzy::{match_of, match_str};

verus! {

broadcast use vstd::string::group_string_axioms;

// ---------------------------------------------------------------------------
// Shared helpers
// ---------------------------------------------------------------------------

/// An empty box in whichever line style the theme allows.
pub open spec fn plain_box(theme: Theme) -> BlockView {
    BlockView {
        ascii: theme.glyphs == Glyphs::Ascii,
        border: plain(),
        fill: plain(),
        titles: Seq::empty(),
    }
}

/// A pane with the house style.
pub open spec fn pane_of(theme: Theme, title: Seq<SpanView>, focused: bool) -> BlockView {
    BlockView { border: theme.edge(focused), titles: seq![ln(title)], ..plain_box(theme) }
}

/// A pane block with the house style: rounded borders, focus-sensitive colour,
/// and a title that reads as a breadcrumb.
pub fn pane(app: &App, title: Vec<Span>, focused: bool) -> (out: Block)
    ensures
        out.deep_view() == pane_of(app.state().theme, title.deep_view(), focused),
{
    let mut out = bordered(app);
    out.border = app.theme.border_style(focused);
    out.titles = one_line(line(title));
    out
}

/// A bordered block in whichever line style the theme allows.
pub fn bordered(app: &App) -> (out: Block)
    ensures
        out.deep_view() == plain_box(app.state().theme),
{
    let titles: Vec<Line> = Vec::new();
    assert(titles.deep_view() =~= Seq::<LineView>::empty());
    Block {
        ascii: app.theme.glyphs == Glyphs::Ascii,
        border: Style::default(),
        fill: Style::default(),
        titles,
    }
}

/// A key's display name at a glyph level.
pub open spec fn key_name(glyphs: Glyphs, key: Key) -> Seq<char> {
    if glyphs == Glyphs::Ascii {
        ascii_key(key_text(key))
    } else {
        key_text(key)
    }
}

/// A key's display name, honouring the theme's glyph level.
pub fn key_label(app: &App, key: &Key) -> (out: String)
    ensures
        out@ == key_name(app.state().theme.glyphs, *key),
{
    let label = key.label();
    if app.theme.glyphs == Glyphs::Ascii {
        asciify_key(&label)
    } else {
        label
    }
}

impl AppState {
    /// Text cut to fit from the right, in the marks that the screen has.
    pub open spec fn cut(self, text: Seq<char>, max: nat) -> Seq<char> {
        cut_end_in(self.symbols.ascii, text, max)
    }

    /// Text cut to fit from the left, in the marks that the screen has.
    pub open spec fn cut_front(self, text: Seq<char>, max: nat) -> Seq<char> {
        cut_start_in(self.symbols.ascii, text, max)
    }
}

/// Text cut to fit from the right, in the marks that the screen has.
pub(crate) fn cut(app: &App, text: &str, max: usize) -> (out: String)
    ensures
        out@ == app.state().cut(text@, max as nat),
{
    reveal(part);
    truncate_in(app.symbols.ascii, text, max)
}

/// Text cut to fit from the left, in the marks that the screen has.
pub(crate) fn cut_front(app: &App, text: &str, max: usize) -> (out: String)
    ensures
        out@ == app.state().cut_front(text@, max as nat),
{
    reveal(part);
    truncate_start_in(app.symbols.ascii, text, max)
}

/// What leads from a host port to the container's.
pub(crate) fn leads_to(app: &App) -> (out: &'static str)
    ensures
        out@ == app.state().symbols.leads_to,
{
    reveal(part);
    app.symbols.leads_to
}

/// A pane's title: its name, and what there is to say of it.
pub open spec fn title_of(
    theme: Theme,
    name: Seq<char>,
    detail: Option<Seq<char>>,
    focused: bool,
) -> Seq<SpanView> {
    let named = seq![raw(" "@), sp(name, theme.caption(focused))];
    let detailed = match detail {
        Some(text) => named.push(sp("  "@ + text, theme.dim_style())),
        None => named,
    };
    detailed.push(raw(" "@))
}

/// Standard pane title: `─ name ── detail ─`.
pub fn title(app: &App, name: &str, detail: Option<String>, focused: bool) -> (out: Vec<Span>)
    ensures
        out.deep_view() == title_of(app.state().theme, name@, detail.deep_view(), focused),
{
    let mut spans = one(unstyled(" "));
    put(&mut spans, styled(name, app.theme.title_style(focused)));
    if let Some(text) = detail {
        put(&mut spans, span(cat2("  ", &text), app.theme.dim()));
    }
    put(&mut spans, unstyled(" "));
    spans
}

/// Text in the right-hand corner of a pane's top edge.
pub open spec fn corner_of(theme: Theme, text: Seq<char>) -> LineView {
    ln_at(seq![sp(" "@ + text + " "@, theme.dim_style())], Alignment::Right)
}

/// Text in the right-hand corner of a pane's top edge, padded by a cell on
/// either side.
pub fn corner(app: &App, text: &str) -> (out: Line)
    ensures
        out.deep_view() == corner_of(app.state().theme, text@),
{
    line_at(one(span(cat3(" ", text, " "), app.theme.dim())), Alignment::Right)
}

/// The cells that some spans take.
pub fn spans_width(spans: &Vec<Span>) -> (out: u128)
    ensures
        out == spans_cells(spans.deep_view()),
        out <= spans@.len() * 0xFFFF_FFFF_FFFF_FFFF,
{
    let ghost all = spans.deep_view();
    let mut used: u128 = 0;
    let mut i: usize = 0;
    assert(all.take(0) =~= Seq::<SpanView>::empty());
    while i < spans.len()
        invariant
            i <= spans.len(),
            all == spans.deep_view(),
            used == spans_cells(all.take(i as int)),
            used <= i * 0xFFFF_FFFF_FFFF_FFFF,
        decreases spans.len() - i,
    {
        assert(all.take(i + 1).drop_last() =~= all.take(i as int));
        assert(all[i as int].text == spans@[i as int].text@);
        let cells: usize = width(&spans[i].text);
        assert(i * 0xFFFF_FFFF_FFFF_FFFF + 0xFFFF_FFFF_FFFF_FFFF <= u128::MAX);
        used = used + cells as u128;
        i += 1;
    }
    assert(all.take(all.len() as int) =~= all);
    used
}

impl AppState {
    /// Whether a pane has the keyboard.
    pub open spec fn focused_on(self, focus: Focus) -> bool {
        self.focus == focus && (self.mode == Mode::Normal || self.mode == Mode::Filter)
    }
}

/// Focus-aware helper used by every pane.
pub fn is_focused(app: &App, focus: Focus) -> (out: bool)
    ensures
        out == app.state().focused_on(focus),
{
    app.focus == focus && matches!(app.mode, Mode::Normal | Mode::Filter)
}

/// The first `n` characters of `text`, those at `hits` picked out: runs of one
/// kind make one span each.
pub open spec fn picked_out(text: Seq<char>, hits: Seq<int>, base: Style, hit: Style, n: int) -> Seq<
    SpanView,
>
    decreases n,
{
    if n <= 0 {
        Seq::empty()
    } else {
        let low = picked_out(text, hits, base, hit, n - 1);
        if n > 1 && hits.contains(n - 1) == hits.contains(n - 2) {
            low.drop_last().push(SpanView { text: low.last().text.push(text[n - 1]), ..low.last() })
        } else {
            low.push(
                sp(
                    seq![text[n - 1]],
                    if hits.contains(n - 1) {
                        hit
                    } else {
                        base
                    },
                ),
            )
        }
    }
}

/// Text with the characters that a filter matched picked out; a single span when
/// there's no filter, or when the text doesn't match (which happens once it's
/// been truncated).
pub open spec fn highlighted(text: Seq<char>, needle: Seq<char>, base: Style, hit: Style) -> Seq<
    SpanView,
> {
    if needle.len() == 0 {
        seq![sp(text, base)]
    } else {
        match match_of(text, needle) {
            None => seq![sp(text, base)],
            Some(m) => picked_out(text, m.indices, base, hit, text.len() as int),
        }
    }
}

fn has_index(indices: &Vec<usize>, i: usize) -> (out: bool)
    ensures
        out == Seq::new(indices@.len(), |k: int| indices@[k] as int).contains(i as int),
{
    let ghost all = Seq::new(indices@.len(), |k: int| indices@[k] as int);
    let mut k: usize = 0;
    while k < indices.len()
        invariant
            k <= indices.len(),
            all == Seq::new(indices@.len(), |k: int| indices@[k] as int),
            forall|j: int| 0 <= j < k ==> #[trigger] all[j] != i,
        decreases indices.len() - k,
    {
        assert(all[k as int] == indices@[k as int] as int);
        if indices[k] == i {
            return true;
        }
        k += 1;
    }
    false
}

fn pick_out(text: &str, indices: &Vec<usize>, base: Style, hit: Style) -> (out: Vec<Span>)
    ensures
        out.deep_view() == picked_out(
            text@,
            Seq::new(indices@.len(), |k: int| indices@[k] as int),
            base,
            hit,
            text@.len() as int,
        ),
{
    let ghost hits = Seq::new(indices@.len(), |k: int| indices@[k] as int);
    let chars = chars_of(text);
    let mut spans = no_spans();
    let mut buffer: Vec<char> = Vec::new();
    let mut on: bool = false;
    let mut i: usize = 0;
    while i < chars.len()
        invariant
            i <= chars.len(),
            chars@ == text@,
            hits == Seq::new(indices@.len(), |k: int| indices@[k] as int),
            i == 0 ==> buffer@.len() == 0 && spans.deep_view().len() == 0,
            i > 0 ==> on == hits.contains(i - 1),
            i > 0 ==> spans.deep_view().push(
                sp(
                    buffer@,
                    if on {
                        hit
                    } else {
                        base
                    },
                ),
            ) == picked_out(text@, hits, base, hit, i as int),
        decreases chars.len() - i,
    {
        let ghost low = picked_out(text@, hits, base, hit, i as int);
        let ghost before = spans.deep_view();
        let is_hit = has_index(indices, i);
        if i > 0 && is_hit != on {
            put(
                &mut spans,
                span(
                    string_of(&buffer),
                    if on {
                        hit
                    } else {
                        base
                    },
                ),
            );
            buffer = Vec::new();
        }
        buffer.push(chars[i]);
        proof {
            if i > 0 && is_hit == on {
                assert(low.drop_last() =~= before);
            } else if i == 0 {
                assert(spans.deep_view() =~= Seq::<SpanView>::empty());
                assert(low =~= Seq::<SpanView>::empty());
            }
            if !(i > 0 && is_hit == on) {
                assert(buffer@ =~= seq![text@[i as int]]);
            }
        }
        on = is_hit;
        i += 1;
    }
    if chars.len() > 0 {
        put(
            &mut spans,
            span(
                string_of(&buffer),
                if on {
                    hit
                } else {
                    base
                },
            ),
        );
    } else {
        assert(spans.deep_view() =~= picked_out(text@, hits, base, hit, 0));
    }
    spans
}

/// Render `text` with the characters that the active filter matched picked out.
/// Falls back to a single plain span when there's no filter, or when `text` no
/// longer matches (which happens once it's been truncated).
pub fn highlight(text: String, needle: &str, base: Style, hit: Style) -> (out: Vec<Span>)
    ensures
        out.deep_view() == highlighted(text@, needle@, base, hit),
{
    if chars_of(needle).len() == 0 {
        return one(span(text, base));
    }
    match match_str(&text, needle) {
        None => one(span(text, base)),
        Some(m) => pick_out(&text, &m.indices, base, hit),
    }
}

/// The text of some spans, one after the other.
pub open spec fn text_of(spans: Seq<SpanView>) -> Seq<char>
    decreases spans.len(),
{
    if spans.len() == 0 {
        Seq::empty()
    } else {
        text_of(spans.drop_last()) + spans.last().text
    }
}

proof fn picking_out_keeps(text: Seq<char>, hits: Seq<int>, base: Style, hit: Style, n: int)
    requires
        0 <= n <= text.len(),
    ensures
        text_of(picked_out(text, hits, base, hit, n)) == text.take(n),
        n > 0 ==> picked_out(text, hits, base, hit, n).len() > 0,
    decreases n,
{
    let all = picked_out(text, hits, base, hit, n);
    if n > 0 {
        picking_out_keeps(text, hits, base, hit, n - 1);
        let low = picked_out(text, hits, base, hit, n - 1);
        assert(text.take(n) =~= text.take(n - 1).push(text[n - 1]));
        if n > 1 && hits.contains(n - 1) == hits.contains(n - 2) {
            assert(all.drop_last() =~= low.drop_last());
            assert(text_of(all) =~= text_of(low).push(text[n - 1]));
        } else {
            assert(all.drop_last() =~= low);
            assert(text_of(all) =~= text_of(low).push(text[n - 1]));
        }
    } else {
        assert(text.take(0) =~= Seq::<char>::empty());
    }
}

/// Picking characters out leaves the text as it is.
pub proof fn highlighting_keeps_the_text(
    text: Seq<char>,
    needle: Seq<char>,
    base: Style,
    hit: Style,
)
    ensures
        text_of(highlighted(text, needle, base, hit)) == text,
{
    let whole = seq![sp(text, base)];
    reveal_with_fuel(text_of, 2);
    assert(whole.drop_last() =~= Seq::<SpanView>::empty());
    assert(text_of(whole) =~= text);
    if needle.len() > 0 {
        if let Some(m) = match_of(text, needle) {
            picking_out_keeps(text, m.indices, base, hit, text.len() as int);
            assert(text.take(text.len() as int) =~= text);
        }
    }
}

/// How each character of some spans is inked.
pub open spec fn inks_of(spans: Seq<SpanView>) -> Seq<InkView>
    decreases spans.len(),
{
    if spans.len() == 0 {
        Seq::empty()
    } else {
        inks_of(spans.drop_last()) + Seq::new(spans.last().text.len(), |i: int| spans.last().ink)
    }
}

proof fn picking_out_marks(text: Seq<char>, hits: Seq<int>, base: Style, hit: Style, n: int)
    requires
        0 <= n <= text.len(),
    ensures
        ({
            let spans = picked_out(text, hits, base, hit, n);
            let inks = inks_of(spans);
            &&& inks.len() == n
            &&& forall|i: int|
                0 <= i < n ==> #[trigger] inks[i] == InkView::Theme(
                    if hits.contains(i) {
                        hit
                    } else {
                        base
                    },
                )
            &&& forall|k: int| 0 <= k < spans.len() ==> (#[trigger] spans[k]).text.len() > 0
            &&& n > 0 ==> spans.len() > 0 && spans.last().ink == InkView::Theme(
                if hits.contains(n - 1) {
                    hit
                } else {
                    base
                },
            )
            &&& base != hit ==> forall|k: int|
                0 < k < spans.len() ==> (#[trigger] spans[k]).ink != spans[k - 1].ink
        }),
    decreases n,
{
    let all = picked_out(text, hits, base, hit, n);
    if n > 0 {
        picking_out_marks(text, hits, base, hit, n - 1);
        let low = picked_out(text, hits, base, hit, n - 1);
        if n > 1 && hits.contains(n - 1) == hits.contains(n - 2) {
            assert(all.drop_last() =~= low.drop_last());
            assert(inks_of(all) =~= inks_of(low).push(all.last().ink));
            assert forall|k: int| 0 < k < all.len() && base != hit implies (#[trigger] all[k]).ink
                != all[k - 1].ink by {
                assert(low[k].ink != low[k - 1].ink);
            }
        } else {
            assert(all.drop_last() =~= low);
            assert(inks_of(all) =~= inks_of(low).push(all.last().ink));
            assert forall|k: int| 0 < k < all.len() && base != hit implies (#[trigger] all[k]).ink
                != all[k - 1].ink by {
                if k < low.len() {
                    assert(low[k].ink != low[k - 1].ink);
                }
            }
        }
    }
}

/// A character is picked out exactly when the filter matched it; without a filter,
/// or without a match, none is.
pub proof fn highlighting_marks_what_matched(
    text: Seq<char>,
    needle: Seq<char>,
    base: Style,
    hit: Style,
    i: int,
)
    requires
        0 <= i < text.len(),
    ensures
        inks_of(highlighted(text, needle, base, hit)).len() == text.len(),
        inks_of(highlighted(text, needle, base, hit))[i] == InkView::Theme(
            if needle.len() > 0 && match_of(text, needle) is Some && (match_of(
                text,
                needle,
            )->0).indices.contains(i) {
                hit
            } else {
                base
            },
        ),
{
    let spans = highlighted(text, needle, base, hit);
    if needle.len() > 0 && match_of(text, needle) is Some {
        picking_out_marks(
            text,
            (match_of(text, needle)->0).indices,
            base,
            hit,
            text.len() as int,
        );
    } else {
        assert(spans.drop_last() =~= Seq::<SpanView>::empty());
        assert(inks_of(spans.drop_last()) =~= Seq::<InkView>::empty());
        assert(inks_of(spans) =~= Seq::new(text.len(), |i: int| spans.last().ink));
    }
}

/// Where a filter matched, no span is empty and each differs from the one before
/// it; otherwise there is a single plain one.
pub proof fn highlighting_wastes_no_spans(
    text: Seq<char>,
    needle: Seq<char>,
    base: Style,
    hit: Style,
    k: int,
)
    requires
        base != hit,
        0 <= k < highlighted(text, needle, base, hit).len(),
    ensures
        ({
            let spans = highlighted(text, needle, base, hit);
            if needle.len() > 0 && match_of(text, needle) is Some {
                &&& spans[k].text.len() > 0
                &&& k > 0 ==> spans[k].ink != spans[k - 1].ink
            } else {
                spans == seq![sp(text, base)]
            }
        }),
{
    if needle.len() > 0 && match_of(text, needle) is Some {
        picking_out_marks(
            text,
            (match_of(text, needle)->0).indices,
            base,
            hit,
            text.len() as int,
        );
    }
}

} // verus!
