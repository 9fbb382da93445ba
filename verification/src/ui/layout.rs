//! Dividing the screen.

use vstd::prelude::*;

use ratatui::layout::{Constraint as Wish, Direction, Layout, Rect as Area};

use crate::geometry::{add_cells, least, min_cells, minus, plus, sub_cells, Rect};

verus! {

/// How much of a length a part asks for.
#[derive(Debug, Clone, Copy, PartialEq, Eq, Structural)]
pub enum Constraint {
    /// Exactly so many cells.
    Length(u16),
    /// At least so many cells.
    Min(u16),
    /// A share of what the others leave.
    Fill(u16),
    /// A share of the whole.
    Percentage(u16),
}

/// Whether every part spans `area` across the direction it was divided in.
pub open spec fn spans_across(parts: Seq<Rect>, area: Rect, vertical: bool) -> bool {
    forall|i: int|
        0 <= i < parts.len() ==> if vertical {
            (#[trigger] parts[i]).x == area.x && parts[i].width == area.width
        } else {
            parts[i].y == area.y && parts[i].height == area.height
        }
}

/// What the parts of fixed length ask for together.
pub open spec fn fixed(parts: Seq<Constraint>) -> nat
    decreases parts.len(),
{
    if parts.len() == 0 {
        0
    } else {
        fixed(parts.drop_last()) + match parts.last() {
            Constraint::Length(n) => n as nat,
            _ => 0,
        }
    }
}

/// What lies between so many parts.
pub open spec fn gaps(parts: Seq<Constraint>, spacing: u16) -> int {
    if parts.len() == 0 {
        0
    } else {
        spacing * (parts.len() - 1)
    }
}

/// The least that a part that stretches asks for.
pub open spec fn least_asked(part: Constraint) -> int {
    match part {
        Constraint::Min(n) => n as int,
        _ => 0,
    }
}

/// Whether the `i`th part stretches and all the others ask for fixed lengths,
/// and the wishes leave no doubt: they can all be met, or there are only two
/// with nothing between them.
pub open spec fn settled(parts: Seq<Constraint>, total: u16, spacing: u16, i: int) -> bool {
    &&& 0 <= i < parts.len()
    &&& parts[i] is Min || parts[i] is Fill
    &&& forall|j: int| 0 <= j < parts.len() && j != i ==> (#[trigger] parts[j]) is Length
    &&& spacing <= 0x7FFF && least_asked(parts[i]) <= 0x7FFF
    &&& fixed(parts) + least_asked(parts[i]) + gaps(parts, spacing) <= total || (parts.len() == 2
        && spacing == 0)
}

/// What the `i`th part gets, which stretches: all that the others leave, and the
/// least it asks for before they get theirs.
pub open spec fn stretched(parts: Seq<Constraint>, total: u16, spacing: u16, i: int) -> int {
    let rest = total - fixed(parts) - gaps(parts, spacing);
    let floor = if least_asked(parts[i]) <= total {
        least_asked(parts[i])
    } else {
        total as int
    };
    if rest > floor {
        rest
    } else {
        floor
    }
}

/// What the `k`th part gets, where the `i`th stretches.
pub open spec fn share(parts: Seq<Constraint>, total: u16, spacing: u16, i: int, k: int) -> int {
    let left = total - stretched(parts, total, spacing, i) - gaps(parts, spacing);
    match parts[k] {
        Constraint::Length(n) => if n <= left {
            n as int
        } else {
            left
        },
        _ => stretched(parts, total, spacing, i),
    }
}

/// Where the `k`th part starts, from the start of the whole.
pub open spec fn offset_of(
    parts: Seq<Constraint>,
    total: u16,
    spacing: u16,
    i: int,
    k: int,
) -> int
    decreases k,
{
    if k <= 0 {
        0
    } else {
        offset_of(parts, total, spacing, i, k - 1) + share(parts, total, spacing, i, k - 1)
            + spacing
    }
}

/// The parts of `area`, one after the other, where the `i`th stretches.
pub open spec fn divided(
    area: Rect,
    vertical: bool,
    parts: Seq<Constraint>,
    spacing: u16,
    i: int,
) -> Seq<Rect> {
    Seq::new(
        parts.len(),
        |k: int|
            if vertical {
                Rect {
                    x: area.x,
                    y: (area.y + offset_of(parts, area.height, spacing, i, k)) as u16,
                    width: area.width,
                    height: share(parts, area.height, spacing, i, k) as u16,
                }
            } else {
                Rect {
                    x: (area.x + offset_of(parts, area.width, spacing, i, k)) as u16,
                    y: area.y,
                    width: share(parts, area.width, spacing, i, k) as u16,
                    height: area.height,
                }
            },
    )
}

/// The length that is divided.
pub open spec fn length_along(area: Rect, vertical: bool) -> u16 {
    if vertical {
        area.height
    } else {
        area.width
    }
}

/// How hard a part pulls at what is left over, next to the others that stretch.
pub open spec fn pull(part: Constraint) -> int {
    match part {
        Constraint::Fill(n) if n > 0 => n as int,
        Constraint::Fill(_) | Constraint::Min(_) => 1,
        _ => 0,
    }
}

/// How hard the parts pull together.
pub open spec fn pulls(parts: Seq<Constraint>) -> int
    decreases parts.len(),
{
    if parts.len() == 0 {
        0
    } else {
        pulls(parts.drop_last()) + pull(parts.last())
    }
}

/// How many hundredths of the whole the parts ask for together.
pub open spec fn hundredths(parts: Seq<Constraint>) -> nat
    decreases parts.len(),
{
    if parts.len() == 0 {
        0
    } else {
        hundredths(parts.drop_last()) + match parts.last() {
            Constraint::Percentage(n) => n as nat,
            _ => 0,
        }
    }
}

/// Whether the `i`th part is the only one that stretches.
pub open spec fn stretches_alone(parts: Seq<Constraint>, i: int) -> bool {
    &&& 0 <= i < parts.len()
    &&& parts[i] is Min || parts[i] is Fill
    &&& forall|j: int|
        0 <= j < parts.len() && j != i ==> (#[trigger] parts[j]) is Length
            || parts[j] is Percentage
}

/// Whether all that stretches does so by weight and all else is fixed, the weights
/// being such that no part ends halfway between two cells.
pub open spec fn stretches_by_weight(parts: Seq<Constraint>) -> bool {
    &&& pulls(parts) % 2 == 1
    &&& pulls(parts) < 100
    &&& forall|j: int|
        0 <= j < parts.len() ==> match #[trigger] parts[j] {
            Constraint::Length(_) => true,
            Constraint::Fill(n) => n > 0,
            _ => false,
        }
}

/// What all parts need at the least, in hundredths of a cell.
pub open spec fn needed(parts: Seq<Constraint>, total: u16, spacing: u16, least: int) -> int {
    100 * (fixed(parts) + gaps(parts, spacing) + least) + hundredths(parts) * total
}

/// Whether the wishes can all be met and leave no doubt how.
pub open spec fn agreed(parts: Seq<Constraint>, total: u16, spacing: u16) -> bool {
    &&& spacing <= 0x7FFF
    &&& {
        ||| stretches_by_weight(parts) && needed(parts, total, spacing, 0) <= 100 * total
        ||| exists|i: int| #[trigger]
            stretches_alone(parts, i) && least_asked(parts[i]) <= 0x7FFF && needed(
                parts,
                total,
                spacing,
                least_asked(parts[i]),
            ) <= 100 * total
    }
}

/// In how many grains a cell is counted, so that every part is a whole number of
/// them.
pub open spec fn grain(parts: Seq<Constraint>) -> int {
    100 * pulls(parts)
}

/// How long the `k`th part is, in grains: its length, its share of the whole, or
/// by its weight its share of what the others leave.
pub open spec fn grains_of(parts: Seq<Constraint>, total: u16, spacing: u16, k: int) -> int {
    match parts[k] {
        Constraint::Length(n) => n * grain(parts),
        Constraint::Percentage(n) => pulls(parts) * (n * total),
        _ => pull(parts[k]) * (100 * total - needed(parts, total, spacing, 0)),
    }
}

/// Where the `k`th part starts, in grains from the start of the whole.
pub open spec fn grains_before(parts: Seq<Constraint>, total: u16, spacing: u16, k: int) -> int
    decreases k,
{
    if k <= 0 {
        0
    } else {
        grains_before(parts, total, spacing, k - 1) + grains_of(parts, total, spacing, k - 1)
            + spacing * grain(parts)
    }
}

/// The cell border nearest to a place given in grains, the later of two that are
/// as near.
pub open spec fn nearest(place: int, grain: int) -> int {
    (2 * place + grain) / (2 * grain)
}

/// Where the `k`th part starts, in cells from the start of the whole.
pub open spec fn cells_before(parts: Seq<Constraint>, total: u16, spacing: u16, k: int) -> int {
    nearest(grains_before(parts, total, spacing, k), grain(parts))
}

/// How long the `k`th part is, in cells.
pub open spec fn cells_of(parts: Seq<Constraint>, total: u16, spacing: u16, k: int) -> int {
    nearest(
        grains_before(parts, total, spacing, k) + grains_of(parts, total, spacing, k),
        grain(parts),
    ) - cells_before(parts, total, spacing, k)
}

/// Whether the parts of `area` start and end where the wishes put them.
pub open spec fn meets_wishes(
    out: Seq<Rect>,
    area: Rect,
    vertical: bool,
    parts: Seq<Constraint>,
    spacing: u16,
) -> bool {
    let total = length_along(area, vertical);
    forall|k: int|
        0 <= k < parts.len() ==> start_along(#[trigger] out[k], vertical) == start_along(
            area,
            vertical,
        ) + cells_before(parts, total, spacing, k) && length_along(out[k], vertical) == cells_of(
            parts,
            total,
            spacing,
            k,
        )
}

/// Where a part starts.
pub open spec fn start_along(part: Rect, vertical: bool) -> u16 {
    if vertical {
        part.y
    } else {
        part.x
    }
}

/// Whether the `i`th part stretches and all the others ask for fixed lengths, for
/// which there is not enough room once the `i`th has its least and the gaps are
/// kept.
pub open spec fn pressed(parts: Seq<Constraint>, total: u16, spacing: u16, i: int) -> bool {
    &&& 0 <= i < parts.len() < 100
    &&& parts[i] is Min || parts[i] is Fill
    &&& forall|j: int| 0 <= j < parts.len() && j != i ==> (#[trigger] parts[j]) is Length
    &&& spacing <= 0x7FFF && least_asked(parts[i]) <= 0x7FFF
    &&& least_asked(parts[i]) + gaps(parts, spacing) <= total < fixed(parts) + least_asked(parts[i])
        + gaps(parts, spacing)
}

/// Whether the lengths are no more than was asked for where the room is not enough:
/// the `i`th part has its least, and no other has more than its length.
pub open spec fn held_short(parts: Seq<Constraint>, lengths: Seq<u16>, i: int) -> bool {
    forall|k: int|
        0 <= k < parts.len() ==> if k == i {
            #[trigger] lengths[k] == least_asked(parts[i])
        } else {
            parts[k] matches Constraint::Length(n) && lengths[k] <= n
        }
}

/// Whether the parts follow each other through the whole of `area`, `spacing`
/// apart.
pub open spec fn follow_on(parts: Seq<Rect>, area: Rect, vertical: bool, spacing: u16) -> bool {
    forall|k: int|
        0 <= k < parts.len() ==> {
            let next = start_along(#[trigger] parts[k], vertical) + length_along(
                parts[k],
                vertical,
            );
            &&& k == 0 ==> start_along(parts[k], vertical) == start_along(area, vertical)
            &&& k + 1 < parts.len() ==> start_along(parts[k + 1], vertical) == next + spacing
            &&& k + 1 == parts.len() ==> next == start_along(area, vertical) + length_along(
                area,
                vertical,
            )
        }
}

/// How long each part is.
pub open spec fn lengths_along(parts: Seq<Rect>, vertical: bool) -> Seq<u16> {
    Seq::new(parts.len(), |k: int| length_along(parts[k], vertical))
}

/// `ratatui::layout::Layout::split`, with no margin. There is one part for each
/// constraint, in order, and across the direction of the division each part is
/// as wide as the whole. Along it:
///
/// - Where all wishes can be met, and either a single part stretches beside fixed
///   lengths and shares of the whole or several stretch by weight beside fixed
///   lengths, the parts follow each other from the start with the spacing between
///   them. A fixed length is met, a share is that share of the whole, and those
///   that stretch divide the rest by their weights. Each border is then put at the
///   nearest cell.
/// - Where a single part stretches beside fixed lengths, the same in plain cells;
///   and of two such parts that ask for more than there is, the least length is
///   met first.
/// - Where a single part stretches beside fixed lengths that ask for more than
///   there is, the spacing and the least length are kept and no part gets more
///   than it asked for. Which of the fixed lengths give way its constraint solver
///   is free to choose, and that is not stated.
///
/// Of other wishes nothing more is stated: there the solver, which walks hash maps
/// whose order differs from run to run, may have several answers.
#[verifier::external_body]
pub(crate) fn split(area: Rect, vertical: bool, parts: &Vec<Constraint>, spacing: u16) -> (out: Vec<
    Rect,
>)
    ensures
        out@.len() == parts@.len(),
        spans_across(out@, area, vertical),
        forall|i: int|
            area.on_screen() && #[trigger] settled(
                parts@,
                length_along(area, vertical),
                spacing,
                i,
            ) ==> out@ == divided(area, vertical, parts@, spacing, i),
        area.on_screen() && agreed(parts@, length_along(area, vertical), spacing) ==> meets_wishes(
            out@,
            area,
            vertical,
            parts@,
            spacing,
        ),
        forall|i: int|
            area.on_screen() && #[trigger] pressed(
                parts@,
                length_along(area, vertical),
                spacing,
                i,
            ) ==> follow_on(out@, area, vertical, spacing) && held_short(
                parts@,
                lengths_along(out@, vertical),
                i,
            ),
{
    let way = if vertical { Direction::Vertical } else { Direction::Horizontal };
    let wishes = parts.iter().map(|c| match *c {
        Constraint::Length(n) => Wish::Length(n),
        Constraint::Min(n) => Wish::Min(n),
        Constraint::Fill(n) => Wish::Fill(n),
        Constraint::Percentage(n) => Wish::Percentage(n),
    });
    let whole = Area { x: area.x, y: area.y, width: area.width, height: area.height };
    let cut = Layout::default().direction(way).constraints(wishes).spacing(spacing).split(whole);
    cut.iter().map(|r| Rect { x: r.x, y: r.y, width: r.width, height: r.height }).collect()
}

/// An area cut in two: what comes first keeps `least` cells if it can, what
/// comes second gets `length` of the rest if it can.
pub open spec fn halves(area: Rect, vertical: bool, floor: u16, length: u16) -> (Rect, Rect) {
    let total = length_along(area, vertical);
    let second = least(length, minus(total, floor));
    let first = minus(total, second);
    if vertical {
        (
            Rect { height: first, ..area },
            Rect { y: plus(area.y, first), height: second, ..area },
        )
    } else {
        (Rect { width: first, ..area }, Rect { x: plus(area.x, first), width: second, ..area })
    }
}

/// Cut an area in two: the first part keeps `floor` cells if it can, the second
/// gets `length` of the rest if it can.
pub fn cut_in_two(area: Rect, vertical: bool, floor: u16, length: u16) -> (out: (Rect, Rect))
    requires
        area.on_screen(),
        floor <= 0x7FFF,
    ensures
        out == halves(area, vertical, floor, length),
{
    let mut parts: Vec<Constraint> = Vec::new();
    parts.push(Constraint::Min(floor));
    parts.push(Constraint::Length(length));
    let cut = split(area, vertical, &parts, 0);
    proof {
        reveal_with_fuel(fixed, 3);
        reveal_with_fuel(offset_of, 2);
        assert(parts@.drop_last().drop_last() =~= Seq::<Constraint>::empty());
        assert(fixed(parts@) == length);
        assert(gaps(parts@, 0) == 0);
        assert(settled(parts@, length_along(area, vertical), 0, 0));
    }
    (cut[0], cut[1])
}

/// An area cut into a head, a banner, a body and a foot.
pub open spec fn quarters(area: Rect, banner: u16) -> (Rect, Rect, Rect, Rect) {
    (
        rows_of(area, 0, 3),
        rows_of(area, 3, banner),
        rows_of(area, (3 + banner) as u16, (area.height - 4 - banner) as u16),
        rows_of(area, (area.height - 1) as u16, 1),
    )
}

/// Cut an area into a head of three rows, a banner, a body, and a foot of one
/// row.
pub fn cut_in_four(area: Rect, banner: u16) -> (out: (Rect, Rect, Rect, Rect))
    requires
        area.on_screen(),
        banner <= 1,
        area.height >= 8,
    ensures
        out == quarters(area, banner),
{
    let mut parts: Vec<Constraint> = Vec::new();
    parts.push(Constraint::Length(3));
    parts.push(Constraint::Length(banner));
    parts.push(Constraint::Min(3));
    parts.push(Constraint::Length(1));
    let cut = split(area, true, &parts, 0);
    proof {
        let p = parts@;
        reveal_with_fuel(fixed, 5);
        reveal_with_fuel(offset_of, 4);
        assert(p.drop_last().drop_last().drop_last().drop_last() =~= Seq::<Constraint>::empty());
        assert(fixed(p) == 4 + banner);
        assert(gaps(p, 0) == 0);
        assert(settled(p, length_along(area, true), 0, 2));
        assert(stretched(p, area.height, 0, 2) == area.height - 4 - banner);
        assert(offset_of(p, area.height, 0, 2, 1) == 3);
        assert(offset_of(p, area.height, 0, 2, 2) == 3 + banner);
        assert(offset_of(p, area.height, 0, 2, 3) == area.height - 1);
    }
    (cut[0], cut[1], cut[2], cut[3])
}

/// What so many widths take together.
pub open spec fn sum_of(widths: Seq<u16>) -> nat
    decreases widths.len(),
{
    if widths.len() == 0 {
        0
    } else {
        sum_of(widths.drop_last()) + widths.last() as nat
    }
}

/// Whether columns that ask for `parts` may come out `widths` wide. Where their
/// wishes agree with the room there is no other way; where the room is not enough
/// for the fixed ones, the columns fill it and none is wider than it asked to be.
pub open spec fn resolves(
    parts: Seq<Constraint>,
    total: u16,
    spacing: u16,
    widths: Seq<u16>,
) -> bool {
    &&& widths.len() == parts.len()
    &&& agreed(parts, total, spacing) ==> forall|k: int|
        0 <= k < parts.len() ==> #[trigger] widths[k] == cells_of(parts, total, spacing, k)
    &&& forall|i: int| #[trigger]
        pressed(parts, total, spacing, i) ==> held_short(parts, widths, i) && sum_of(widths) + gaps(
            parts,
            spacing,
        ) == total
    &&& forall|i: int, k: int|
        #![trigger settled(parts, total, spacing, i), widths[k]]
        settled(parts, total, spacing, i) && 0 <= k < parts.len() ==> widths[k] == share(
            parts,
            total,
            spacing,
            i,
            k,
        )
}

/// Resolve the widths a set of table constraints will produce, so cell text can
/// be truncated to exactly the space it will get.
pub fn column_widths(width: u16, constraints: &Vec<Constraint>, spacing: u16) -> (out: Vec<u16>)
    ensures
        resolves(constraints@, width, spacing, out@),
{
    let area = Rect { x: 0, y: 0, width, height: 1 };
    let parts = split(area, false, constraints, spacing);
    let mut out: Vec<u16> = Vec::new();
    let mut i: usize = 0;
    while i < parts.len()
        invariant
            i <= parts.len(),
            out.len() == i,
            forall|k: int| 0 <= k < i ==> #[trigger] out@[k] == parts@[k].width,
        decreases parts.len() - i,
    {
        out.push(parts[i].width);
        i += 1;
    }
    proof {
        assert forall|i: int, k: int|
            #![trigger settled(constraints@, width, spacing, i), out@[k]]
            settled(constraints@, width, spacing, i) && 0 <= k < constraints@.len() implies out@[k]
            == share(constraints@, width, spacing, i, k) by {
            assert(length_along(area, false) == width);
            assert(parts@ == divided(area, false, constraints@, spacing, i));
            shares_fit(constraints@, width, spacing, i, k);
        }
        assert forall|i: int| #[trigger] pressed(constraints@, width, spacing, i) implies held_short(
            constraints@,
            out@,
            i,
        ) && sum_of(out@) + gaps(constraints@, spacing) == width by {
            assert(pressed(constraints@, length_along(area, false), spacing, i));
            assert(out@ =~= lengths_along(parts@, false));
            lengths_add_up(parts@, area, spacing, out@, out@.len() as int);
            assert(out@.take(out@.len() as int) =~= out@);
        }
    }
    out
}

proof fn lengths_add_up(parts: Seq<Rect>, area: Rect, spacing: u16, widths: Seq<u16>, n: int)
    requires
        0 < n <= parts.len(),
        widths.len() == parts.len(),
        forall|k: int| 0 <= k < parts.len() ==> #[trigger] widths[k] == parts[k].width,
        follow_on(parts, area, false, spacing),
    ensures
        area.x + sum_of(widths.take(n)) + spacing * (n - 1) == parts[n - 1].x + parts[n - 1].width,
    decreases n,
{
    assert(widths.take(n).drop_last() =~= widths.take(n - 1));
    assert(widths.take(n).last() == parts[n - 1].width);
    if n > 1 {
        lengths_add_up(parts, area, spacing, widths, n - 1);
        let before = parts[n - 2];
        assert(start_along(parts[n - 2 + 1], false) == start_along(before, false) + length_along(
            before,
            false,
        ) + spacing);
        assert(spacing * (n - 1) == spacing * (n - 2) + spacing) by (nonlinear_arith);
    } else {
        assert(widths.take(0) =~= Seq::<u16>::empty());
        assert(sum_of(widths.take(n - 1)) == 0);
        assert(spacing * (n - 1) == 0) by (nonlinear_arith)
            requires
                n == 1,
        ;
        assert(start_along(parts[0], false) == start_along(area, false));
    }
}

proof fn shares_fit(parts: Seq<Constraint>, total: u16, spacing: u16, i: int, k: int)
    requires
        settled(parts, total, spacing, i),
        0 <= k < parts.len(),
    ensures
        0 <= share(parts, total, spacing, i, k) <= total,
{
    assert(gaps(parts, spacing) >= 0) by (nonlinear_arith)
        requires
            parts.len() >= 1,
            gaps(parts, spacing) == spacing * (parts.len() - 1),
    ;
}

/// A box of the given size in the middle of `area`, clamped to fit.
pub open spec fn middle(area: Rect, width: u16, height: u16) -> Rect {
    let width = least(width, area.width);
    let height = least(height, area.height);
    Rect {
        x: plus(area.x, minus(area.width, width) / 2),
        y: plus(area.y, minus(area.height, height) / 2),
        width,
        height,
    }
}

/// Centre a box of the given size inside `area`, clamped to fit.
pub fn centered(area: Rect, width: u16, height: u16) -> (out: Rect)
    ensures
        out == middle(area, width, height),
{
    let width = min_cells(width, area.width);
    let height = min_cells(height, area.height);
    Rect {
        x: add_cells(area.x, sub_cells(area.width, width) / 2),
        y: add_cells(area.y, sub_cells(area.height, height) / 2),
        width,
        height,
    }
}

/// A centred box lies inside the area it is centred in.
pub proof fn centred_boxes_fit(area: Rect, width: u16, height: u16)
    requires
        area.x + area.width <= 0xFFFF,
        area.y + area.height <= 0xFFFF,
    ensures
        area.x <= middle(area, width, height).x,
        area.y <= middle(area, width, height).y,
        middle(area, width, height).right_edge() <= area.right_edge(),
        middle(area, width, height).bottom_edge() <= area.bottom_edge(),
{
}

/// The grab region for a pane's top edge: that border row plus the one above
/// it, which belongs to the pane before. Two rows rather than one because a
/// single-row target is more of a dare than an affordance.
pub open spec fn row_grip(pane: Rect) -> Rect {
    Rect { x: pane.x, y: minus(pane.y, 1), width: pane.width, height: 2 }
}

/// The same for a pane's left edge.
pub open spec fn column_grip(pane: Rect) -> Rect {
    Rect { x: minus(pane.x, 1), y: pane.y, width: 2, height: pane.height }
}

/// The grab region for a pane's top edge.
pub fn grab_row(pane: Rect) -> (out: Rect)
    ensures
        out == row_grip(pane),
{
    Rect { x: pane.x, y: sub_cells(pane.y, 1), width: pane.width, height: 2 }
}

/// The grab region for a pane's left edge.
pub fn grab_column(pane: Rect) -> (out: Rect)
    ensures
        out == column_grip(pane),
{
    Rect { x: sub_cells(pane.x, 1), y: pane.y, width: 2, height: pane.height }
}

/// Part of an area: `height` rows of it, from the `down`th on.
pub open spec fn rows_of(area: Rect, down: u16, height: u16) -> Rect {
    Rect { y: plus(area.y, down), height, ..area }
}

/// Part of an area: `height` rows of it, from the `down`th on.
pub fn rows_from(area: Rect, down: u16, height: u16) -> (out: Rect)
    ensures
        out == rows_of(area, down, height),
{
    Rect { x: area.x, y: add_cells(area.y, down), width: area.width, height }
}

// ---------------------------------------------------------------------------
// What the columns of a table get
// ---------------------------------------------------------------------------

proof fn whole_cells_shift(place: int, n: int, g: int)
    requires
        g > 0,
    ensures
        nearest(place + n * g, g) == nearest(place, g) + n,
{
    assert(2 * (place + n * g) + g == (2 * place + g) + n * (2 * g)) by (nonlinear_arith);
    vstd::arithmetic::div_mod::lemma_hoist_over_denominator(2 * place + g, n, (2 * g) as nat);
}

proof fn nearest_is_near(place: int, g: int)
    requires
        g > 0,
    ensures
        2 * place - g < 2 * g * nearest(place, g) <= 2 * place + g,
{
    let d = 2 * g;
    let x = 2 * place + g;
    vstd::arithmetic::div_mod::lemma_fundamental_div_mod(x, d);
    vstd::arithmetic::div_mod::lemma_mod_bound(x, d);
}

proof fn pulls_are_counts(parts: Seq<Constraint>, k: int)
    requires
        0 <= k < parts.len(),
    ensures
        0 <= pull(parts[k]) <= pulls(parts),
    decreases parts.len(),
{
    if k < parts.len() - 1 {
        pulls_are_counts(parts.drop_last(), k);
    } else if parts.len() > 1 {
        pulls_are_counts(parts.drop_last(), 0);
    } else {
        reveal_with_fuel(pulls, 2);
    }
}

proof fn something_pulls(parts: Seq<Constraint>, total: u16, spacing: u16)
    requires
        agreed(parts, total, spacing),
    ensures
        pulls(parts) > 0,
        grain(parts) > 0,
        100 * total - needed(parts, total, spacing, 0) >= 0,
{
    if stretches_by_weight(parts) && needed(parts, total, spacing, 0) <= 100 * total {
        if parts.len() > 0 {
            pulls_are_counts(parts, 0);
        }
    } else {
        let i = choose|i: int| #[trigger]
            stretches_alone(parts, i) && least_asked(parts[i]) <= 0x7FFF && needed(
                parts,
                total,
                spacing,
                least_asked(parts[i]),
            ) <= 100 * total;
        pulls_are_counts(parts, i);
    }
}

/// A column that asks for so many cells gets exactly that.
pub proof fn fixed_lengths_are_met(
    parts: Seq<Constraint>,
    total: u16,
    spacing: u16,
    k: int,
    n: u16,
)
    requires
        agreed(parts, total, spacing),
        0 <= k < parts.len(),
        parts[k] == Constraint::Length(n),
    ensures
        cells_of(parts, total, spacing, k) == n,
{
    something_pulls(parts, total, spacing);
    whole_cells_shift(grains_before(parts, total, spacing, k), n as int, grain(parts));
}

/// Each column starts where the one before it ends, with the spacing between.
pub proof fn columns_follow_each_other(
    parts: Seq<Constraint>,
    total: u16,
    spacing: u16,
    k: int,
)
    requires
        agreed(parts, total, spacing),
        0 <= k,
    ensures
        cells_before(parts, total, spacing, 0) == 0,
        cells_before(parts, total, spacing, k + 1) == cells_before(parts, total, spacing, k)
            + cells_of(parts, total, spacing, k) + spacing,
{
    let g = grain(parts);
    something_pulls(parts, total, spacing);
    nearest_is_near(0, g);
    assert(nearest(0, g) == 0) by {
        assert(-g < 2 * g * nearest(0, g) <= g);
        let n = nearest(0, g);
        assert(n == 0) by (nonlinear_arith)
            requires
                -g < 2 * g * n <= g,
                g > 0,
        ;
    }
    whole_cells_shift(
        grains_before(parts, total, spacing, k) + grains_of(parts, total, spacing, k),
        spacing as int,
        g,
    );
}

proof fn grains_so_far(parts: Seq<Constraint>, total: u16, spacing: u16, k: int)
    requires
        0 <= k <= parts.len(),
    ensures
        grains_before(parts, total, spacing, k) == fixed(parts.take(k)) * grain(parts) + pulls(
            parts,
        ) * (hundredths(parts.take(k)) * total) + pulls(parts.take(k)) * (100 * total - needed(
            parts,
            total,
            spacing,
            0,
        )) + k * (spacing * grain(parts)),
    decreases k,
{
    let g = grain(parts);
    let w = pulls(parts);
    let rest = 100 * total - needed(parts, total, spacing, 0);
    let t = total as int;
    if k == 0 {
        assert(parts.take(0) =~= Seq::<Constraint>::empty());
        assert(0 * g == 0 && w * (0 * t) == 0 && 0 * rest == 0 && 0 * (spacing * g) == 0)
            by (nonlinear_arith);
    } else {
        let low = parts.take(k - 1);
        let up = parts.take(k);
        assert(up.drop_last() =~= low);
        assert(up.last() == parts[k - 1]);
        grains_so_far(parts, total, spacing, k - 1);
        let (f, h, p) = (fixed(low) as int, hundredths(low) as int, pulls(low));
        let step = spacing * g;
        assert((k - 1) * step + step == k * step) by (nonlinear_arith);
        match parts[k - 1] {
            Constraint::Length(n) => {
                assert((f + n) * g == f * g + n * g) by (nonlinear_arith);
            },
            Constraint::Percentage(n) => {
                assert(w * ((h + n) * t) == w * (h * t) + w * (n * t)) by (nonlinear_arith);
            },
            _ => {
                let q = pull(parts[k - 1]);
                assert((p + q) * rest == p * rest + q * rest) by (nonlinear_arith);
            },
        }
    }
}

/// The columns and what lies between them fill the room exactly.
pub proof fn columns_fill_the_room(parts: Seq<Constraint>, total: u16, spacing: u16)
    requires
        agreed(parts, total, spacing),
    ensures
        parts.len() > 0,
        cells_before(parts, total, spacing, parts.len() - 1) + cells_of(
            parts,
            total,
            spacing,
            parts.len() - 1,
        ) == total,
{
    something_pulls(parts, total, spacing);
    let n = parts.len() as int;
    assert(n > 0);
    let g = grain(parts);
    let w = pulls(parts);
    let (f, h, t) = (fixed(parts) as int, hundredths(parts) as int, total as int);
    let s = spacing as int;
    let between = gaps(parts, spacing);
    grains_so_far(parts, total, spacing, n);
    assert(parts.take(n) =~= parts);
    assert(grains_before(parts, total, spacing, n) == t * g + s * g) by {
        assert(n * (s * g) == (s * (n - 1)) * g + s * g) by (nonlinear_arith);
        assert(w * (100 * t - (100 * (f + between + 0) + h * t)) == 100 * (w * t) - 100 * (w * f)
            - 100 * (w * between) - w * (h * t)) by (nonlinear_arith);
        assert(f * (100 * w) == 100 * (w * f)) by (nonlinear_arith);
        assert(between * (100 * w) == 100 * (w * between)) by (nonlinear_arith);
        assert(t * (100 * w) == 100 * (w * t)) by (nonlinear_arith);
    }
    columns_follow_each_other(parts, total, spacing, n - 1);
    whole_cells_shift(0, t, g);
    whole_cells_shift(0, t + s, g);
    assert((t + s) * g == t * g + s * g) by (nonlinear_arith);
}

proof fn shares_are_near(parts: Seq<Constraint>, total: u16, spacing: u16, k: int)
    requires
        agreed(parts, total, spacing),
        0 <= k < parts.len(),
    ensures
        grains_of(parts, total, spacing, k) - grain(parts) < grain(parts) * cells_of(
            parts,
            total,
            spacing,
            k,
        ) < grains_of(parts, total, spacing, k) + grain(parts),
{
    something_pulls(parts, total, spacing);
    let g = grain(parts);
    let a = grains_before(parts, total, spacing, k);
    let b = a + grains_of(parts, total, spacing, k);
    nearest_is_near(a, g);
    nearest_is_near(b, g);
    let (x, y) = (nearest(a, g), nearest(b, g));
    assert(2 * g * y - 2 * g * x == 2 * (g * (y - x))) by (nonlinear_arith);
}

/// Columns that stretch by weight are as wide as their weights are to each other,
/// give or take the rounding to whole cells.
pub proof fn weights_are_kept(
    parts: Seq<Constraint>,
    total: u16,
    spacing: u16,
    i: int,
    j: int,
    a: u16,
    b: u16,
)
    requires
        agreed(parts, total, spacing),
        0 <= i < parts.len(),
        0 <= j < parts.len(),
        parts[i] == Constraint::Fill(a),
        parts[j] == Constraint::Fill(b),
        a > 0,
        b > 0,
    ensures
        -(a + b) < b * cells_of(parts, total, spacing, i) - a * cells_of(parts, total, spacing, j)
            < a + b,
{
    something_pulls(parts, total, spacing);
    shares_are_near(parts, total, spacing, i);
    shares_are_near(parts, total, spacing, j);
    let g = grain(parts);
    let rest = 100 * total - needed(parts, total, spacing, 0);
    let (x, y) = (cells_of(parts, total, spacing, i), cells_of(parts, total, spacing, j));
    let (p, q) = (a as int, b as int);
    assert(-(p + q) < q * x - p * y < p + q) by (nonlinear_arith)
        requires
            p * rest - g < g * x < p * rest + g,
            q * rest - g < g * y < q * rest + g,
            g > 0,
            p > 0,
            q > 0,
    {
        assert(q * (p * rest - g) < q * (g * x) < q * (p * rest + g));
        assert(p * (q * rest - g) < p * (g * y) < p * (q * rest + g));
        assert(g * (q * x - p * y) == q * (g * x) - p * (g * y));
        assert(q * (p * rest) == p * (q * rest));
        assert(g * (q * x - p * y) < g * (p + q));
        assert(g * (q * x - p * y) > -(g * (p + q)));
    }
}

} // verus!
