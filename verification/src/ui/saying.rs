//! The lists say of each thing what their columns are titled after.

use vstd::prelude::*;

use crate::app::state::{items_among, AppState};
use crate::app::{GroupView, Sort, Tab, ViewRow};
use crate::docker::model::{ports_text_with, service_text, State};
use crate::geometry::{Position, Rect};
use crate::text::{begins, dec, find, find_text, join};
use crate::ui::rows::{column, columns_of, state_place};
use crate::ui::screen::{sp, ColView, LineView, SpanView, WidgetView};
use crate::ui::tables::{
    cell, cell_right, column_start, dot_of, header_targets, state_hue, state_text, users_cell,
};
use crate::ui::theme::{colored, spin_text, Style, Theme};
use crate::ui::{highlighting_keeps_the_text, text_of};
use crate::util::format::{bytes_text, duration_text, elapsed, short, text_width};

verus! {

broadcast use vstd::string::group_string_axioms;

/// What a line says, whatever it looks like.
pub open spec fn said(line: LineView) -> Seq<char> {
    text_of(line.spans)
}

proof fn one_span_says(text: Seq<char>, style: Style)
    ensures
        said(cell(text, style)) == text,
        said(cell_right(text, style)) == text,
{
    let one = seq![sp(text, style)];
    assert(one.drop_last() =~= Seq::<SpanView>::empty());
    assert(text_of(Seq::<SpanView>::empty()) =~= Seq::<char>::empty());
    assert(text_of(one) =~= text);
}

proof fn every_cell_says()
    ensures
        forall|text: Seq<char>, style: Style| said(#[trigger] cell(text, style)) == text,
        forall|text: Seq<char>, style: Style| said(#[trigger] cell_right(text, style)) == text,
{
    assert forall|text: Seq<char>, style: Style| said(#[trigger] cell(text, style)) == text by {
        one_span_says(text, style);
    }
    assert forall|text: Seq<char>, style: Style| said(#[trigger] cell_right(text, style))
        == text by {
        one_span_says(text, style);
    }
}

proof fn titles_are_told_apart()
    ensures
        ""@.len() == 0,
        "NAME"@.len() == 4 && "NAME"@[0] == 'N',
        "IMAGE"@.len() == 5 && "IMAGE"@[0] == 'I',
        "STATE"@.len() == 5 && "STATE"@[0] == 'S' && "STATE"@[1] == 'T',
        "CPU"@.len() == 3 && "CPU"@[0] == 'C',
        "MEM"@.len() == 3 && "MEM"@[0] == 'M',
        "PORTS"@.len() == 5 && "PORTS"@[0] == 'P',
        "REPOSITORY"@.len() == 10,
        "TAG"@.len() == 3 && "TAG"@[0] == 'T',
        "ID"@.len() == 2,
        "SIZE"@.len() == 4 && "SIZE"@[0] == 'S',
        "AGE"@.len() == 3 && "AGE"@[0] == 'A',
        "USED"@.len() == 4 && "USED"@[0] == 'U',
        "DRIVER"@.len() == 6 && "DRIVER"@[0] == 'D',
        "MOUNTPOINT"@.len() == 10,
        "SCOPE"@.len() == 5 && "SCOPE"@[1] == 'C',
        "SUBNET"@.len() == 6 && "SUBNET"@[0] == 'S',
{
    reveal_strlit("");
    reveal_strlit("NAME");
    reveal_strlit("IMAGE");
    reveal_strlit("STATE");
    reveal_strlit("CPU");
    reveal_strlit("MEM");
    reveal_strlit("PORTS");
    reveal_strlit("REPOSITORY");
    reveal_strlit("TAG");
    reveal_strlit("ID");
    reveal_strlit("SIZE");
    reveal_strlit("AGE");
    reveal_strlit("USED");
    reveal_strlit("DRIVER");
    reveal_strlit("MOUNTPOINT");
    reveal_strlit("SCOPE");
    reveal_strlit("SUBNET");
}

/// Whether a text has room in the `j`th column.
pub open spec fn room_for(text: Seq<char>, widths: Seq<u16>, j: int) -> bool {
    widths[j] > 0 && text_width(text) <= widths[j]
}

/// The row of a container says under each title what that title promises, as far as
/// there is room for it; under a stack's header it goes by its service.
pub proof fn container_rows_say_what_their_columns_promise(
    v: AppState,
    i: int,
    j: int,
    widths: Seq<u16>,
    w: u16,
    now: int,
)
    requires
        v.tab == Tab::Containers,
        0 <= i < v.containers.len(),
        widths.len() == columns_of(v.tab, w).len(),
        0 <= j < widths.len(),
    ensures
        v.item_cells(i, widths, w, now).len() == widths.len(),
        ({
            let c = v.containers[i];
            let title = columns_of(v.tab, w)[j].title;
            let text = said(v.item_cells(i, widths, w, now)[j]);
            &&& title == "NAME"@ && !v.grouping() && room_for(c.name, widths, j) ==> text == c.name
            &&& title == "NAME"@ && v.grouping() && widths[j] > 2 && text_width(service_text(c)) + 2
                <= widths[j] ==> text == "  "@ + service_text(c)
            &&& title == "IMAGE"@ && room_for(c.image, widths, j) ==> text == c.image
            &&& title == "STATE"@ && v.pending.dom().contains(c.id) && room_for(
                v.pending[c.id],
                widths,
                j,
            ) ==> text == v.pending[c.id]
            &&& title == "STATE"@ && !v.pending.dom().contains(c.id) && c.status.len() == 0
                && room_for(c.state.label_text(), widths, j) ==> text == c.state.label_text()
            &&& title == "STATE"@ && !v.pending.dom().contains(c.id) && c.status.len() > 0
                && room_for(state_text(c.state, c.status), widths, j) ==> text == state_text(
                c.state,
                c.status,
            )
            &&& title == "CPU"@ ==> (v.stat(c.id) matches Some(s) ==> text == s.cpu_text + "%"@)
            &&& title == "MEM"@ ==> (v.stat(c.id) matches Some(s) ==> text == bytes_text(
                s.mem_bytes as nat,
            ))
            &&& (title == "CPU"@ || title == "MEM"@) && v.stat(c.id) is None ==> text == "-"@
            &&& title == "PORTS"@ && room_for(
                ports_text_with(c.ports, v.symbols.leads_to),
                widths,
                j,
            ) ==> text == ports_text_with(c.ports, v.symbols.leads_to)
        }),
{
    reveal(AppState::container_cells);
    titles_are_told_apart();
    every_cell_says();
    let c = v.containers[i];
    highlighting_keeps_the_text(
        v.row_name(c, widths[1]),
        v.needle(),
        crate::ui::theme::strong(v.theme.text),
        crate::ui::theme::strong(v.theme.accent),
    );
    let cells = v.container_cells(c, widths, w);
    let cols = columns_of(Tab::Containers, w);
    if j == 0 {
        assert(cols[0].title == ""@);
    } else if j == 1 {
        assert(cols[1].title == "NAME"@);
        assert(said(cells[1]) == v.row_name(c, widths[1]));
    } else if j == state_place(w) {
        assert(cols[j].title == "STATE"@);
        assert(cells[j] == v.state_cell(c, widths[j]));
    } else if j == 2 {
        assert(cols[2].title == "IMAGE"@);
    } else if j == state_place(w) + 1 {
        assert(cols[j].title == "CPU"@);
        assert(cells[j] == v.cpu_cell(c));
    } else if j == state_place(w) + 2 {
        assert(cols[j].title == "MEM"@);
        assert(cells[j] == v.mem_cell(c));
    } else {
        assert(cols[j].title == "PORTS"@);
    }
}

/// A container's state is told by its status: by what comes before the health for one
/// that is up, and with the exit code for one that is not.
pub proof fn states_are_told_by_the_status(state: State, front: Seq<char>, back: Seq<char>)
    requires
        !front.contains('('),
        !front.contains(')'),
        front.len() > 0,
    ensures
        begins(front, "Up"@) ==> state_text(state, front + " ("@ + back) == front,
        begins(front, "Up"@) ==> state_text(state, front) == front,
        !begins(front, "Up"@) ==> state_text(state, front + ")"@ + back) == front + ")"@ || begins(
            front + ")"@ + back,
            "Up"@,
        ),
        !begins(front, "Up"@) ==> state_text(state, front) == front,
{
    reveal_strlit("Up");
    reveal_strlit(" (");
    reveal_strlit(")");
    let healthy = front + " ("@ + back;
    assert(" ("@ =~= seq![' ', '(']);
    assert(")"@ =~= seq![')']);
    if begins(front, "Up"@) {
        assert(healthy.subrange(0, 2) =~= front.subrange(0, 2));
        parenthesis_is_found(front, back, 0);
        no_parenthesis_is_found(front, 0);
        assert(healthy.take(front.len() as int) =~= front);
        assert(front.take(front.len() as int) =~= front);
    } else {
        let left = front + ")"@ + back;
        bracket_is_found(front, back, 0);
        assert(left.take(front.len() as int) =~= front);
    }
}

proof fn parenthesis_is_found(front: Seq<char>, back: Seq<char>, from: int)
    requires
        0 <= from <= front.len(),
        !front.contains('('),
    ensures
        find_text(front + " ("@ + back, " ("@, from) == front.len(),
    decreases front.len() - from,
{
    reveal_strlit(" (");
    let all = front + " ("@ + back;
    if from < front.len() {
        parenthesis_is_found(front, back, from + 1);
        if from + 2 <= all.len() && all.subrange(from, from + 2) == " ("@ {
            assert(all.subrange(from, from + 2)[1] == all[from + 1]);
            if from + 1 < front.len() {
                assert(front.contains(front[from + 1]));
            }
        }
    } else {
        assert(all.subrange(from, from + 2) =~= " ("@);
    }
}

proof fn no_parenthesis_is_found(front: Seq<char>, from: int)
    requires
        0 <= from <= front.len(),
        !front.contains('('),
    ensures
        find_text(front, " ("@, from) == front.len(),
    decreases front.len() - from,
{
    reveal_strlit(" (");
    if from < front.len() {
        no_parenthesis_is_found(front, from + 1);
        if from + 2 <= front.len() && front.subrange(from, from + 2) == " ("@ {
            assert(front.subrange(from, from + 2)[1] == front[from + 1]);
            assert(front.contains(front[from + 1]));
        }
    }
}

proof fn bracket_is_found(front: Seq<char>, back: Seq<char>, from: int)
    requires
        0 <= from <= front.len(),
        !front.contains(')'),
    ensures
        find(front + ")"@ + back, ')', from) == front.len(),
        find(front, ')', from) == front.len(),
    decreases front.len() - from,
{
    reveal_strlit(")");
    let all = front + ")"@ + back;
    if from < front.len() {
        bracket_is_found(front, back, from + 1);
        assert(all[from] == front[from]);
        assert(front.contains(front[from]));
    } else {
        assert(all[from] == ')');
    }
}

/// The row of an image says under each title what that title promises, as far as there
/// is room for it.
pub proof fn image_rows_say_what_their_columns_promise(
    v: AppState,
    i: int,
    j: int,
    widths: Seq<u16>,
    w: u16,
    now: int,
)
    requires
        v.tab == Tab::Images,
        0 <= i < v.images.len(),
        widths.len() == columns_of(v.tab, w).len(),
        0 <= j < widths.len(),
    ensures
        v.item_cells(i, widths, w, now).len() == widths.len(),
        ({
            let img = v.images[i];
            let title = columns_of(v.tab, w)[j].title;
            let text = said(v.item_cells(i, widths, w, now)[j]);
            &&& title == "REPOSITORY"@ && room_for(img.repository, widths, j) ==> text
                == img.repository
            &&& title == "TAG"@ && room_for(img.tag, widths, j) ==> text == img.tag
            &&& title == "ID"@ ==> text == short(img.id)
            &&& title == "SIZE"@ && img.size > 0 ==> text == bytes_text(img.size as nat)
            &&& title == "AGE"@ ==> text == duration_text(elapsed(now, img.created as int))
            &&& title == "USED"@ && img.containers > 0 ==> text == dec(img.containers as nat)
            &&& title == "USED"@ && img.containers <= 0 ==> text == "-"@
        }),
{
    reveal(AppState::image_cells);
    titles_are_told_apart();
    every_cell_says();
    let img = v.images[i];
    highlighting_keeps_the_text(
        v.cut_front(img.repository, widths[1] as nat),
        v.needle(),
        crate::ui::theme::strong(v.theme.text),
        crate::ui::theme::strong(v.theme.accent),
    );
    let cells = v.image_cells(img, widths, now);
    let cols = columns_of(Tab::Images, w);
    assert(cells.len() == 7 && cols.len() == 7);
    assert(said(cells[1]) == v.cut_front(img.repository, widths[1] as nat));
    assert(cols[0].title == ""@ && cols[1].title == "REPOSITORY"@ && cols[2].title == "TAG"@);
    assert(cols[3].title == "ID"@ && cols[4].title == "SIZE"@ && cols[5].title == "AGE"@);
    assert(cols[6].title == "USED"@);
    assert(cells[6] == users_cell(v.theme, img.containers as int));
}

/// The row of a volume says under each title what that title promises, as far as there
/// is room for it.
pub proof fn volume_rows_say_what_their_columns_promise(
    v: AppState,
    i: int,
    j: int,
    widths: Seq<u16>,
    w: u16,
    now: int,
)
    requires
        v.tab == Tab::Volumes,
        0 <= i < v.volumes.len(),
        widths.len() == columns_of(v.tab, w).len(),
        0 <= j < widths.len(),
    ensures
        v.item_cells(i, widths, w, now).len() == widths.len(),
        ({
            let vol = v.volumes[i];
            let title = columns_of(v.tab, w)[j].title;
            let text = said(v.item_cells(i, widths, w, now)[j]);
            &&& title == "NAME"@ && room_for(vol.name, widths, j) ==> text == vol.name
            &&& title == "DRIVER"@ && room_for(vol.driver, widths, j) ==> text == vol.driver
            &&& title == "USED"@ && vol.used_by > 0 ==> text == dec(vol.used_by as nat)
            &&& title == "USED"@ && vol.used_by == 0 ==> text == "-"@
            &&& title == "SIZE"@ ==> (vol.size matches Some(n) ==> n > 0 ==> text == bytes_text(
                n as nat,
            ))
            &&& title == "SIZE"@ && vol.size is None && !v.measuring_volumes ==> text == "-"@
            &&& title == "AGE"@ ==> (vol.created matches Some(t) ==> text == duration_text(
                elapsed(now, t as int),
            ))
            &&& title == "AGE"@ && vol.created is None ==> text == "-"@
            &&& title == "MOUNTPOINT"@ && room_for(vol.mountpoint, widths, j) ==> text
                == vol.mountpoint
        }),
{
    reveal(AppState::volume_cells);
    titles_are_told_apart();
    every_cell_says();
    let vol = v.volumes[i];
    highlighting_keeps_the_text(
        v.cut(vol.name, widths[1] as nat),
        v.needle(),
        crate::ui::theme::strong(v.theme.text),
        crate::ui::theme::strong(v.theme.accent),
    );
    let cells = v.volume_cells(vol, widths, w, now);
    let cols = columns_of(Tab::Volumes, w);
    assert(said(cells[1]) == v.cut(vol.name, widths[1] as nat));
    assert(cols[0].title == ""@ && cols[1].title == "NAME"@ && cols[2].title == "DRIVER"@);
    assert(cols[3].title == "USED"@ && cols[4].title == "SIZE"@ && cols[5].title == "AGE"@);
    assert(j == 6 ==> cols[j].title == "MOUNTPOINT"@);
    assert(cells[3] == users_cell(v.theme, vol.used_by as int));
    assert(cells[4] == v.size_cell_of(vol.size));
}

/// The row of a network says under each title what that title promises, as far as there
/// is room for it.
pub proof fn network_rows_say_what_their_columns_promise(
    v: AppState,
    i: int,
    j: int,
    widths: Seq<u16>,
    w: u16,
    now: int,
)
    requires
        v.tab == Tab::Networks,
        0 <= i < v.networks.len(),
        widths.len() == columns_of(v.tab, w).len(),
        0 <= j < widths.len(),
    ensures
        v.item_cells(i, widths, w, now).len() == widths.len(),
        ({
            let n = v.networks[i];
            let title = columns_of(v.tab, w)[j].title;
            let text = said(v.item_cells(i, widths, w, now)[j]);
            &&& title == "NAME"@ && room_for(n.name, widths, j) ==> text == n.name
            &&& title == "DRIVER"@ && room_for(n.driver, widths, j) ==> text == n.driver
            &&& title == "SCOPE"@ && room_for(n.scope, widths, j) ==> text == n.scope
            &&& title == "USED"@ && n.used_by > 0 ==> text == dec(n.used_by as nat)
            &&& title == "USED"@ && n.used_by == 0 ==> text == "-"@
            &&& title == "SUBNET"@ && room_for(join(n.subnets, ", "@), widths, j) ==> text == join(
                n.subnets,
                ", "@,
            )
        }),
{
    reveal(AppState::network_cells);
    titles_are_told_apart();
    every_cell_says();
    let n = v.networks[i];
    let base = if crate::docker::model::predefined(n.name) {
        crate::ui::theme::colored(v.theme.subtle)
    } else {
        crate::ui::theme::strong(v.theme.text)
    };
    highlighting_keeps_the_text(
        v.cut(n.name, widths[1] as nat),
        v.needle(),
        base,
        crate::ui::theme::strong(v.theme.accent),
    );
    let cells = v.network_cells(n, widths, w);
    let cols = columns_of(Tab::Networks, w);
    assert(said(cells[1]) == v.cut(n.name, widths[1] as nat));
    assert(cols[0].title == ""@ && cols[1].title == "NAME"@ && cols[2].title == "DRIVER"@);
    assert(cols[3].title == "SCOPE"@ && cols[4].title == "USED"@);
    assert(j == 5 ==> cols[j].title == "SUBNET"@);
    assert(cells[4] == users_cell(v.theme, n.used_by as int));
}

/// A list has a row of cells for each of its rows, in their order, and each says what
/// belongs there: a resource its own figures, a header its stack's.
pub proof fn every_row_is_drawn(v: AppState, k: int, widths: Seq<u16>, w: u16, now: int)
    requires
        0 <= k < v.rows().len(),
    ensures
        v.table(w, widths, now).rows.len() == v.rows().len(),
        v.rows()[k] matches ViewRow::Item(i) ==> v.table(w, widths, now).rows[k].cells
            == v.item_cells(i as int, widths, w, now),
        v.rows()[k] matches ViewRow::Group(g) ==> v.table(w, widths, now).rows[k].cells
            == v.group_cells(v.groups[g as int], widths, w),
        v.table(w, widths, now).offset == v.offset.at(v.tab),
{
    reveal(AppState::table);
    reveal(AppState::row_at);
}

/// The row that is picked out is the one that is selected, by its identity; there is one
/// wherever something listed is selected.
pub proof fn the_selected_row_is_picked_out(v: AppState, k: int, widths: Seq<u16>, w: u16, now: int)
    requires
        0 <= k < v.rows().len(),
    ensures
        v.table(w, widths, now).selected matches Some(at) ==> 0 <= at < v.rows().len() && match v.rows()[at] {
            ViewRow::Item(i) => v.key_at(v.tab, i as int) == v.selected.at(v.tab) && v.selected.at(
                v.tab,
            ) is Some,
            ViewRow::Group(g) => v.selected_group == Some(v.groups[g as int].key),
        },
        v.rows()[k] matches ViewRow::Item(i) ==> (!v.on_group() && v.selected.at(v.tab) is Some
            && v.key_at(v.tab, i as int) == v.selected.at(v.tab) ==> v.table(
            w,
            widths,
            now,
        ).selected is Some),
{
    reveal(AppState::table);
    the_first_selected(v, 0, k);
}

proof fn the_first_selected(v: AppState, from: int, k: int)
    requires
        0 <= from,
        k < v.rows().len(),
    ensures
        v.cursor_from(from) matches Some(at) ==> from <= at < v.rows().len() && v.is_selected(
            v.rows()[at],
        ),
        from <= k && v.is_selected(v.rows()[k]) ==> v.cursor_from(from) is Some,
    decreases v.rows().len() - from,
{
    if from < v.rows().len() {
        the_first_selected(v, from + 1, k);
    }
}

/// The heading over a column is its title. The column that the list goes by, and no
/// other, carries an arrow: down where the largest comes first, up where the smallest
/// does.
pub proof fn headings_say_what_the_list_goes_by(v: AppState, w: u16, j: int)
    requires
        0 <= j < columns_of(v.tab, w).len(),
    ensures
        ({
            let col = columns_of(v.tab, w)[j];
            let text = said(v.header_cells(w)[j]);
            let sort = v.sort_of(v.tab);
            let largest_first = sort == Sort::Cpu || sort == Sort::Mem || sort == Sort::Size;
            &&& v.header_cells(w).len() == columns_of(v.tab, w).len()
            &&& col.sort != Some(sort) ==> text == col.title
            &&& col.sort == Some(sort) && largest_first != v.sort_reverse.at(v.tab) ==> text
                == col.title + " "@ + v.symbols.arrow_down
            &&& col.sort == Some(sort) && largest_first == v.sort_reverse.at(v.tab) ==> text
                == col.title + " "@ + v.symbols.arrow_up
        }),
{
    let col = columns_of(v.tab, w)[j];
    let line = v.header_cell(col);
    assert(v.header_cells(w)[j] == line);
    let first = line.spans.take(1);
    assert(first.drop_last() =~= Seq::<SpanView>::empty());
    assert(text_of(Seq::<SpanView>::empty()) =~= Seq::<char>::empty());
    assert(text_of(first) =~= col.title);
    if col.sort == Some(v.sort_of(v.tab)) {
        assert(line.spans.drop_last() =~= first);
        assert(said(line) =~= col.title + (" "@ + v.chevron()));
        assert(said(line) =~= col.title + " "@ + v.chevron());
    } else {
        assert(line.spans =~= first);
    }
}

/// The columns that a list can go by are the ones titled after what it then goes by.
pub proof fn columns_are_titled_after_their_order(tab: Tab, w: u16, j: int)
    requires
        0 <= j < columns_of(tab, w).len(),
    ensures
        ({
            let col = columns_of(tab, w)[j];
            &&& col.sort == Some(Sort::Name) ==> col.title == "NAME"@ || col.title
                == "REPOSITORY"@
            &&& col.sort == Some(Sort::State) <==> col.title == "STATE"@
            &&& col.sort == Some(Sort::Cpu) <==> col.title == "CPU"@
            &&& col.sort == Some(Sort::Mem) <==> col.title == "MEM"@
            &&& col.sort == Some(Sort::Size) <==> col.title == "SIZE"@
            &&& col.sort == Some(Sort::Created) <==> col.title == "AGE"@
            &&& col.sort == Some(Sort::Driver) ==> col.title == "DRIVER"@
        }),
{
    titles_are_told_apart();
    let cols = columns_of(tab, w);
    if tab == Tab::Containers {
        let place = state_place(w);
        assert(cols[0].title == ""@ && cols[1].title == "NAME"@);
        assert(cols[place].title == "STATE"@);
        if j == place || j < 2 {
        } else if j < place {
            assert(cols[j] == column("IMAGE"@, cols[j].align, None));
        } else if j == place + 1 {
            assert(cols[j].title == "CPU"@);
        } else if j == place + 2 {
            assert(cols[j].title == "MEM"@);
        } else {
            assert(cols[j].title == "PORTS"@);
        }
    } else if tab == Tab::Images {
        assert(cols[0].title == ""@ && cols[1].title == "REPOSITORY"@ && cols[2].title == "TAG"@);
        assert(cols[3].title == "ID"@ && cols[4].title == "SIZE"@ && cols[5].title == "AGE"@);
        assert(cols[6].title == "USED"@);
    } else if tab == Tab::Volumes {
        assert(cols[0].title == ""@ && cols[1].title == "NAME"@ && cols[2].title == "DRIVER"@);
        assert(cols[3].title == "USED"@ && cols[4].title == "SIZE"@ && cols[5].title == "AGE"@);
        assert(j == 6 ==> cols[j].title == "MOUNTPOINT"@);
    } else {
        assert(cols[0].title == ""@ && cols[1].title == "NAME"@ && cols[2].title == "DRIVER"@);
        assert(cols[3].title == "SCOPE"@ && cols[4].title == "USED"@);
        assert(j == 5 ==> cols[j].title == "SUBNET"@);
    }
}

// ---------------------------------------------------------------------------
// Where the list can be hit
// ---------------------------------------------------------------------------

/// Where a list was drawn, the header takes the first line and the rows the lines below
/// it, from the one that is scrolled to: a position on one of those lines hits the row
/// that is drawn there.
pub proof fn rows_are_hit_where_they_are_drawn(
    v: AppState,
    area: Rect,
    cols: Seq<ColView>,
    widths: Seq<u16>,
    offset: usize,
    row: int,
    at: Position,
)
    requires
        area.y + area.height <= u16::MAX,
        offset <= row,
        at.y == area.y + 1 + (row - offset),
        at.y < area.y + area.height,
        area.x <= at.x < area.x + area.width,
        area.x + area.width <= u16::MAX,
    ensures
        v.table_recorded(area, cols, widths, offset).hits.list_body matches Some(body)
            && body.holds(at) && v.table_recorded(area, cols, widths, offset).row_under(body, at)
            == row,
        v.table_recorded(area, cols, widths, offset).offset.at(v.tab) == offset,
{
    reveal(AppState::table_recorded);
}

/// Each heading that is hit is that of a column that the list can go by, on the line of
/// the header, where that column starts and no wider than it.
pub proof fn headings_are_hit_where_they_are_drawn(
    area: Rect,
    cols: Seq<ColView>,
    widths: Seq<u16>,
    n: int,
    k: int,
)
    requires
        0 <= n <= cols.len(),
        widths.len() == cols.len(),
        0 <= k < header_targets(area, cols, widths, n).len(),
    ensures
        exists|j: int|
            0 <= j < n && (#[trigger] cols[j]).sort == Some(
                header_targets(area, cols, widths, n)[k].1,
            ) && header_targets(area, cols, widths, n)[k].0.x == column_start(area, widths, j)
                && header_targets(area, cols, widths, n)[k].0.width <= widths[j]
                && header_targets(area, cols, widths, n)[k].0.y == area.y && header_targets(
                area,
                cols,
                widths,
                n,
            )[k].0.height == 1,
    decreases n,
{
    let low = header_targets(area, cols, widths, n - 1);
    let all = header_targets(area, cols, widths, n);
    if k < low.len() {
        headings_are_hit_where_they_are_drawn(area, cols, widths, n - 1, k);
        assert(all[k] == low[k]);
        let j = choose|j: int|
            0 <= j < n - 1 && (#[trigger] cols[j]).sort == Some(low[k].1) && low[k].0.x
                == column_start(area, widths, j) && low[k].0.width <= widths[j] && low[k].0.y
                == area.y && low[k].0.height == 1;
        assert(cols[j].sort == Some(all[k].1));
    } else {
        assert(cols[n - 1].sort == Some(all[k].1));
    }
}

/// The header of a stack says its name, and how much of it is up in the column of the
/// states; its arrow says whether it is folded.
pub proof fn headers_say_how_much_is_up(v: AppState, g: GroupView, widths: Seq<u16>, w: u16)
    requires
        widths.len() > 1,
    ensures
        ({
            let cells = v.group_cells(g, widths, w);
            &&& cells.len() == state_place(w) + 1
            &&& room_for(g.label(), widths, 1) ==> said(cells[1]) == g.label()
            &&& g.running == g.items ==> said(cells[state_place(w)]) == dec(g.items) + " up"@
            &&& g.running != g.items ==> said(cells[state_place(w)]) == dec(g.running) + "/"@ + dec(
                g.items,
            ) + " up"@
            &&& g.collapsed ==> cells[0].spans[1].text == v.symbols.arrow_right
            &&& !g.collapsed ==> cells[0].spans[1].text == v.symbols.arrow_down
            &&& g.key.len() > 0 ==> g.label() == g.key
        }),
{
    reveal(AppState::group_cells);
    every_cell_says();
    let cells = v.group_cells(g, widths, w);
    highlighting_keeps_the_text(
        v.cut(g.label(), widths[1] as nat),
        v.needle(),
        crate::ui::theme::strong(
            if g.key.len() == 0 {
                v.theme.subtle
            } else {
                v.theme.primary
            },
        ),
        crate::ui::theme::strong(v.theme.accent),
    );
    assert(said(cells[1]) == v.cut(g.label(), widths[1] as nat));
}

proof fn items_are_counted(rows: Seq<ViewRow>, n: int)
    requires
        0 <= n <= rows.len(),
    ensures
        items_among(rows, n) == rows.take(n).filter(|r: ViewRow| r is Item).len(),
    decreases n,
{
    reveal(Seq::filter);
    if n > 0 {
        items_are_counted(rows, n - 1);
        assert(rows.take(n).drop_last() =~= rows.take(n - 1));
        assert(rows.take(n).last() == rows[n - 1]);
    }
}

/// The title of a list counts what is shown out of what there is, where that is less.
pub proof fn titles_count_what_is_shown(v: AppState)
    requires
        !v.grouping(),
        v.filter.at(v.tab).value.len() == 0,
    ensures
        ({
            let shown = v.rows().filter(|r: ViewRow| r is Item).len();
            &&& shown == v.count(v.tab) ==> v.subtitle_text() == dec(v.count(v.tab))
            &&& shown != v.count(v.tab) ==> v.subtitle_text() == dec(shown) + "/"@ + dec(
                v.count(v.tab),
            )
        }),
{
    items_are_counted(v.rows(), v.rows().len() as int);
    assert(v.rows().take(v.rows().len() as int) =~= v.rows());
}

/// A list without rows says why: that nothing matches, or that there is nothing.
pub proof fn empty_lists_say_why(v: AppState)
    ensures
        v.filter.at(v.tab).value.len() > 0 ==> v.emptiness() == "nothing matches this filter"@,
        v.filter.at(v.tab).value.len() == 0 && v.tab == Tab::Images ==> v.emptiness()
            == "no images"@,
        v.filter.at(v.tab).value.len() == 0 && v.tab == Tab::Volumes ==> v.emptiness()
            == "no volumes"@,
        v.filter.at(v.tab).value.len() == 0 && v.tab == Tab::Networks ==> v.emptiness()
            == "no networks"@,
        v.filter.at(v.tab).value.len() == 0 && v.tab == Tab::Containers && v.show_stopped
            ==> v.emptiness() == "no containers"@,
{
}

/// A list is drawn as a table inside its frame, or as the reason why there is none.
pub proof fn lists_are_drawn_in_their_frame(v: AppState, area: Rect, widths: Seq<u16>, now: int)
    requires
        area.width > 2,
        area.height > 2,
    ensures
        v.list(area, widths, now).len() == 2,
        v.list(area, widths, now)[0].area == area,
        v.rows().len() > 0 ==> v.list(area, widths, now)[1].area == area.inside() && v.list(
            area,
            widths,
            now,
        )[1].widget == WidgetView::Table(v.table(area.inside().width, widths, now)),
        v.rows().len() == 0 ==> (v.list(area, widths, now)[1].widget matches WidgetView::Text {
            lines,
            ..
        } && lines[0].spans[0].text == v.emptiness()),
{
    reveal(AppState::list);
}

/// The first cell of a container's row is its glyph, or a spinner while a job runs on it;
/// that of an image, a volume or a network tells whether something uses it.
pub proof fn the_first_cell_is_a_glyph(v: AppState, i: int, widths: Seq<u16>, w: u16, now: int)
    requires
        0 <= i < v.count(v.tab),
    ensures
        ({
            let first = v.item_cells(i, widths, w, now)[0];
            let used = cell(v.symbols.running, colored(v.theme.success));
            let unused = cell(v.symbols.stopped, colored(v.theme.faint));
            &&& v.tab == Tab::Containers && v.pending.dom().contains(v.containers[i].id)
                ==> first.spans[1].text == spin_text(v.symbols.ascii, v.spinner as int / 2)
            &&& v.tab == Tab::Containers && !v.pending.dom().contains(v.containers[i].id)
                ==> first.spans[1] == dot_of(
                v.theme,
                v.symbols,
                v.containers[i].state,
                v.containers[i].health,
            )
            &&& v.tab == Tab::Images && v.images[i].dangling ==> first == cell(
                v.symbols.dead,
                colored(v.theme.warn),
            )
            &&& v.tab == Tab::Images && !v.images[i].dangling ==> first == (
            if v.images[i].containers > 0 {
                used
            } else {
                unused
            })
            &&& v.tab == Tab::Volumes ==> first == (if v.volumes[i].used_by > 0 {
                used
            } else {
                unused
            })
            &&& v.tab == Tab::Networks ==> first == (if v.networks[i].used_by > 0 {
                used
            } else {
                unused
            })
        }),
{
    reveal(AppState::container_cells);
    reveal(AppState::image_cells);
    reveal(AppState::volume_cells);
    reveal(AppState::network_cells);
}

/// A state has the colour that goes with it.
pub proof fn states_have_their_colors(theme: Theme)
    ensures
        state_hue(theme, State::Running) == theme.success,
        state_hue(theme, State::Paused) == theme.warn,
        state_hue(theme, State::Dead) == theme.danger,
        state_hue(theme, State::Exited) == theme.subtle,
        state_hue(theme, State::Created) == theme.info,
{
}

} // verus!
