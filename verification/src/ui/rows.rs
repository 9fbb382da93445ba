//! The rows of the resource tables.

use vstd::prelude::*;

use crate::app::state::{part, verbs, App, AppState};
use crate::app::{Group, GroupView, Sort, Tab, ViewRow};
use crate::docker::model::{
    ports_text_with, predefined, service_text, ContainerRow, ContainerView, ImageRow, ImageView,
    NetworkRow, NetworkView, VolumeRow, VolumeView,
};
use crate::geometry::{minus, sub_cells};
use crate::text::{cat2, cat4, dec, decimal, join, joined, owned, put};
use crate::ui::layout::Constraint;
use crate::ui::screen::{
    blank_line, gap, line, ln, one_line, raw, sp, styled, two, unstyled, Alignment, Col,
    ColView, Line, LineView, Row, RowView, Span, SpanView,
};
use crate::ui::tables::{
    cell, cell_right, dot_of, load_look, load_style, make_cell, make_cell_right, make_use_dot,
    make_users, name_cell, name_line, needle, state_color, state_hue, state_label, state_text,
    status_dot, use_dot, users_cell,
};
use crate::ui::theme::{colored, spin_text, strong, Style};
use crate::ui::{cut, cut_front, highlight, highlighted, leads_to};
use crate::util::format::{
    bytes, bytes_i64, bytes_or_dash, bytes_text, duration_short, duration_text, elapsed,
    seconds_between, short, short_id,
};

verus! {

broadcast use vstd::string::group_string_axioms;

/// A column.
pub open spec fn column(title: Seq<char>, align: Alignment, sort: Option<Sort>) -> ColView {
    ColView { title, align, sort }
}

fn col(title: &'static str, align: Alignment, sort: Option<Sort>) -> (out: Col)
    ensures
        out.deep_view() == column(title@, align, sort),
{
    Col { title, align, sort }
}

fn no_cols() -> (out: Vec<Col>)
    ensures
        out.deep_view() == Seq::<ColView>::empty(),
{
    let out: Vec<Col> = Vec::new();
    assert(out.deep_view() =~= Seq::<ColView>::empty());
    out
}

// ---------------------------------------------------------------------------
// Columns
// ---------------------------------------------------------------------------

/// Whether there is room for the load columns. Columns drop out in reverse
/// priority order as the pane narrows. Without this the fixed-width columns keep
/// their space and squeeze the name — the one column you can't identify a row
/// without — down to nothing.
pub open spec fn fits_load(w: u16) -> bool {
    w >= 42
}

/// Whether there is room for the image column.
pub open spec fn fits_image(w: u16) -> bool {
    w >= 70
}

/// Whether there is room for the ports column.
pub open spec fn fits_ports(w: u16) -> bool {
    w >= 100
}

/// Where the state column is.
pub open spec fn state_place(w: u16) -> int {
    if fits_image(w) {
        3
    } else {
        2
    }
}

/// The columns of a list, `w` cells wide.
pub open spec fn columns_of(tab: Tab, w: u16) -> Seq<ColView> {
    let l = Alignment::Left;
    let r = Alignment::Right;
    match tab {
        Tab::Containers => {
            let front = seq![column(""@, l, None), column("NAME"@, l, Some(Sort::Name))];
            let imaged = if fits_image(w) {
                front.push(column("IMAGE"@, l, None))
            } else {
                front
            };
            let stated = imaged.push(column("STATE"@, l, Some(Sort::State)));
            let loaded = if fits_load(w) {
                stated.push(column("CPU"@, r, Some(Sort::Cpu))).push(
                    column("MEM"@, r, Some(Sort::Mem)),
                )
            } else {
                stated
            };
            if fits_ports(w) {
                loaded.push(column("PORTS"@, l, None))
            } else {
                loaded
            }
        },
        Tab::Images => seq![
            column(""@, l, None),
            column("REPOSITORY"@, l, Some(Sort::Name)),
            column("TAG"@, l, None),
            column("ID"@, l, None),
            column("SIZE"@, r, Some(Sort::Size)),
            column("AGE"@, r, Some(Sort::Created)),
            column("USED"@, r, None),
        ],
        Tab::Volumes => {
            let front = seq![
                column(""@, l, None),
                column("NAME"@, l, Some(Sort::Name)),
                column("DRIVER"@, l, None),
                column("USED"@, r, None),
                column("SIZE"@, r, Some(Sort::Size)),
                column("AGE"@, r, Some(Sort::Created)),
            ];
            if w >= 90 {
                front.push(column("MOUNTPOINT"@, l, None))
            } else {
                front
            }
        },
        Tab::Networks => {
            let front = seq![
                column(""@, l, None),
                column("NAME"@, l, Some(Sort::Name)),
                column("DRIVER"@, l, Some(Sort::Driver)),
                column("SCOPE"@, l, None),
                column("USED"@, r, None),
            ];
            if w >= 84 {
                front.push(column("SUBNET"@, l, None))
            } else {
                front
            }
        },
    }
}

/// How wide the columns of a list ask to be. `Fill` weights rather than
/// percentages for the containers: the text columns share whatever is left after
/// the fixed ones, in a ratio that keeps names readable without letting them
/// swallow the row.
pub open spec fn constraints_of(tab: Tab, w: u16) -> Seq<Constraint> {
    match tab {
        Tab::Containers => {
            let front = seq![Constraint::Length(2), Constraint::Fill(3)];
            let imaged = if fits_image(w) {
                front.push(Constraint::Fill(4))
            } else {
                front
            };
            let stated = imaged.push(Constraint::Length(12));
            let loaded = if fits_load(w) {
                stated.push(Constraint::Length(7)).push(Constraint::Length(8))
            } else {
                stated
            };
            if fits_ports(w) {
                loaded.push(Constraint::Fill(4))
            } else {
                loaded
            }
        },
        Tab::Images => seq![
            Constraint::Length(1),
            Constraint::Min(20),
            Constraint::Length(16),
            Constraint::Length(12),
            Constraint::Length(9),
            Constraint::Length(9),
            Constraint::Length(5),
        ],
        Tab::Volumes => {
            let front = seq![
                Constraint::Length(1),
                Constraint::Min(20),
                Constraint::Length(9),
                Constraint::Length(5),
                Constraint::Length(8),
                Constraint::Length(9),
            ];
            if w >= 90 {
                front.push(Constraint::Percentage(30))
            } else {
                front
            }
        },
        Tab::Networks => {
            let front = seq![
                Constraint::Length(1),
                Constraint::Min(18),
                Constraint::Length(10),
                Constraint::Length(7),
                Constraint::Length(5),
            ];
            if w >= 84 {
                front.push(Constraint::Percentage(28))
            } else {
                front
            }
        },
    }
}

/// The columns of a list, `w` cells wide.
pub fn columns(tab: Tab, w: u16) -> (out: Vec<Col>)
    ensures
        out.deep_view() == columns_of(tab, w),
{
    let l = Alignment::Left;
    let r = Alignment::Right;
    let mut out = no_cols();
    put(&mut out, col("", l, None));
    match tab {
        Tab::Containers => {
            put(&mut out, col("NAME", l, Some(Sort::Name)));
            if w >= 70 {
                put(&mut out, col("IMAGE", l, None));
            }
            put(&mut out, col("STATE", l, Some(Sort::State)));
            if w >= 42 {
                put(&mut out, col("CPU", r, Some(Sort::Cpu)));
                put(&mut out, col("MEM", r, Some(Sort::Mem)));
            }
            if w >= 100 {
                put(&mut out, col("PORTS", l, None));
            }
        },
        Tab::Images => {
            put(&mut out, col("REPOSITORY", l, Some(Sort::Name)));
            put(&mut out, col("TAG", l, None));
            put(&mut out, col("ID", l, None));
            put(&mut out, col("SIZE", r, Some(Sort::Size)));
            put(&mut out, col("AGE", r, Some(Sort::Created)));
            put(&mut out, col("USED", r, None));
        },
        Tab::Volumes => {
            put(&mut out, col("NAME", l, Some(Sort::Name)));
            put(&mut out, col("DRIVER", l, None));
            put(&mut out, col("USED", r, None));
            put(&mut out, col("SIZE", r, Some(Sort::Size)));
            put(&mut out, col("AGE", r, Some(Sort::Created)));
            if w >= 90 {
                put(&mut out, col("MOUNTPOINT", l, None));
            }
        },
        Tab::Networks => {
            put(&mut out, col("NAME", l, Some(Sort::Name)));
            put(&mut out, col("DRIVER", l, Some(Sort::Driver)));
            put(&mut out, col("SCOPE", l, None));
            put(&mut out, col("USED", r, None));
            if w >= 84 {
                put(&mut out, col("SUBNET", l, None));
            }
        },
    }
    out
}

/// How wide the columns of a list ask to be.
pub fn constraints(tab: Tab, w: u16) -> (out: Vec<Constraint>)
    ensures
        out@ == constraints_of(tab, w),
        out@.len() == columns_of(tab, w).len(),
{
    let mut out: Vec<Constraint> = Vec::new();
    match tab {
        Tab::Containers => {
            out.push(Constraint::Length(2));
            out.push(Constraint::Fill(3));
            if w >= 70 {
                out.push(Constraint::Fill(4));
            }
            out.push(Constraint::Length(12));
            if w >= 42 {
                out.push(Constraint::Length(7));
                out.push(Constraint::Length(8));
            }
            if w >= 100 {
                out.push(Constraint::Fill(4));
            }
        },
        Tab::Images => {
            out.push(Constraint::Length(1));
            out.push(Constraint::Min(20));
            out.push(Constraint::Length(16));
            out.push(Constraint::Length(12));
            out.push(Constraint::Length(9));
            out.push(Constraint::Length(9));
            out.push(Constraint::Length(5));
        },
        Tab::Volumes => {
            out.push(Constraint::Length(1));
            out.push(Constraint::Min(20));
            out.push(Constraint::Length(9));
            out.push(Constraint::Length(5));
            out.push(Constraint::Length(8));
            out.push(Constraint::Length(9));
            if w >= 90 {
                out.push(Constraint::Percentage(30));
            }
        },
        Tab::Networks => {
            out.push(Constraint::Length(1));
            out.push(Constraint::Min(18));
            out.push(Constraint::Length(10));
            out.push(Constraint::Length(7));
            out.push(Constraint::Length(5));
            if w >= 84 {
                out.push(Constraint::Percentage(28));
            }
        },
    }
    out
}

// ---------------------------------------------------------------------------
// Rows
// ---------------------------------------------------------------------------

/// How many rows of its own stack precede the `k`th. Zebra striping counts rows
/// within a stack, not down the whole list, so each group starts on the same
/// footing and the headers stay legible.
pub open spec fn stripe_place(rows: Seq<ViewRow>, k: int) -> int
    decreases k,
{
    if k <= 0 {
        0
    } else {
        match rows[k - 1] {
            ViewRow::Group(_) => 0,
            ViewRow::Item(_) => stripe_place(rows, k - 1) + 1,
        }
    }
}

impl AppState {
    /// The verb of the job under way on something.
    pub open spec fn busy(self, id: Seq<char>) -> Option<Seq<char>> {
        if self.pending.dom().contains(id) {
            Some(self.pending[id])
        } else {
            None
        }
    }

    /// The filter of the tab on screen.
    pub open spec fn needle(self) -> Seq<char> {
        self.filter.at(self.tab).value
    }

    /// A container's glyph: its state, or a spinner while a job runs.
    pub open spec fn glyph(self, c: ContainerView) -> SpanView {
        match self.busy(c.id) {
            Some(_) => sp(
                spin_text(self.symbols.ascii, self.spinner as int / 2),
                colored(self.theme.info),
            ),
            None => dot_of(self.theme, self.symbols, c.state, c.health),
        }
    }

    /// A container's marker.
    pub open spec fn marker(self, c: ContainerView) -> LineView {
        ln(seq![raw(" "@), self.glyph(c)])
    }

    /// What a container's row calls it. Under a header the stack name is already
    /// on screen, so the row says which *service* it is — `postgres`, not
    /// `argilla-postgres-1`. Indented, so the two levels read apart.
    pub open spec fn row_name(self, c: ContainerView, width: u16) -> Seq<char> {
        if self.grouping() {
            "  "@ + self.cut(service_text(c), minus(width, 2) as nat)
        } else {
            self.cut(c.name, width as nat)
        }
    }

    /// A container's state cell.
    pub open spec fn state_cell(self, c: ContainerView, width: u16) -> LineView {
        match self.busy(c.id) {
            Some(verb) => cell(self.cut(verb, width as nat), colored(self.theme.info)),
            None => cell(
                self.cut(state_text(c.state, c.status), width as nat),
                colored(state_hue(self.theme, c.state)),
            ),
        }
    }

    /// A container's processor cell.
    pub open spec fn cpu_cell(self, c: ContainerView) -> LineView {
        match self.stat(c.id) {
            Some(s) => cell_right(
                s.cpu_text + "%"@,
                load_look(self.theme, Some(s.cpu_percent)),
            ),
            None => cell_right("-"@, load_look(self.theme, None)),
        }
    }

    /// A container's memory cell.
    pub open spec fn mem_cell(self, c: ContainerView) -> LineView {
        match self.stat(c.id) {
            Some(s) => cell_right(
                bytes_text(s.mem_bytes as nat),
                load_look(self.theme, s.mem_percent()),
            ),
            None => cell_right("-"@, load_look(self.theme, None)),
        }
    }

    /// A container's cells. The interesting half of a registry-qualified image
    /// name is the end, so it is trimmed from the left.
    #[verifier::opaque]
    pub open spec fn container_cells(self, c: ContainerView, widths: Seq<u16>, w: u16) -> Seq<
        LineView,
    > {
        let front = seq![
            self.marker(c),
            name_line(self.theme, self.row_name(c, widths[1]), self.needle(), false),
        ];
        let imaged = if fits_image(w) {
            front.push(cell(self.cut_front(c.image, widths[2] as nat), self.theme.dim_style()))
        } else {
            front
        };
        let stated = imaged.push(self.state_cell(c, widths[state_place(w)]));
        let loaded = if fits_load(w) {
            stated.push(self.cpu_cell(c)).push(self.mem_cell(c))
        } else {
            stated
        };
        if fits_ports(w) {
            loaded.push(
                cell(
                    self.cut(
                        ports_text_with(c.ports, self.symbols.leads_to),
                        widths[widths.len() - 1] as nat,
                    ),
                    self.theme.faintest(),
                ),
            )
        } else {
            loaded
        }
    }

    /// A stack's header row: a disclosure triangle, the stack name, and how much
    /// of it is up. The count sits in the state column so it lines up with the
    /// states of the rows underneath. The standalone bucket isn't a deployment,
    /// so it doesn't get the colour that says "this is a thing someone shipped".
    #[verifier::opaque]
    pub open spec fn group_cells(self, g: GroupView, widths: Seq<u16>, w: u16) -> Seq<LineView> {
        let label = strong(
            if g.key.len() == 0 {
                self.theme.subtle
            } else {
                self.theme.primary
            },
        );
        let front = seq![
            ln(
                seq![
                    raw(" "@),
                    sp(
                        if g.collapsed {
                            self.symbols.arrow_right
                        } else {
                            self.symbols.arrow_down
                        },
                        colored(self.theme.faint),
                    ),
                ],
            ),
            ln(
                highlighted(
                    self.cut(g.label(), widths[1] as nat),
                    self.needle(),
                    label,
                    strong(self.theme.accent),
                ),
            ),
        ];
        let padded = if fits_image(w) {
            front.push(gap())
        } else {
            front
        };
        padded.push(
            cell(
                if g.running == g.items {
                    dec(g.items) + " up"@
                } else {
                    dec(g.running) + "/"@ + dec(g.items) + " up"@
                },
                self.theme.dim_style(),
            ),
        )
    }

    /// An image's cells.
    #[verifier::opaque]
    pub open spec fn image_cells(self, img: ImageView, widths: Seq<u16>, now: int) -> Seq<
        LineView,
    > {
        seq![
            if img.dangling {
                cell(self.symbols.dead, colored(self.theme.warn))
            } else {
                use_dot(self.theme, self.symbols, img.containers > 0)
            },
            name_line(
                self.theme,
                self.cut_front(img.repository, widths[1] as nat),
                self.needle(),
                false,
            ),
            cell(
                self.cut(img.tag, widths[2] as nat),
                colored(
                    if img.dangling {
                        self.theme.warn
                    } else {
                        self.theme.info
                    },
                ),
            ),
            cell(short(img.id), self.theme.faintest()),
            cell_right(bytes_or_dash(img.size as int), colored(self.theme.text)),
            cell_right(
                duration_text(elapsed(now, img.created as int)),
                self.theme.dim_style(),
            ),
            users_cell(self.theme, img.containers as int),
        ]
    }

    /// The size cell: a number once measured, a spinner while the daemon is
    /// walking, and a dash the rest of the time. The dash is the honest answer
    /// rather than a placeholder — Docker doesn't hand out volume sizes with the
    /// listing, so until someone asks for a measurement there is genuinely
    /// nothing to show.
    pub open spec fn size_cell_of(self, size: Option<i64>) -> LineView {
        match size {
            Some(n) => cell_right(bytes_or_dash(n as int), colored(self.theme.text)),
            None => if self.measuring_volumes {
                cell_right(
                    spin_text(self.symbols.ascii, self.spinner as int / 2),
                    colored(self.theme.info),
                )
            } else {
                cell_right("-"@, self.theme.faintest())
            },
        }
    }

    /// A volume's cells.
    #[verifier::opaque]
    pub open spec fn volume_cells(
        self,
        v: VolumeView,
        widths: Seq<u16>,
        w: u16,
        now: int,
    ) -> Seq<LineView> {
        let front = seq![
            use_dot(self.theme, self.symbols, v.used_by > 0),
            name_line(self.theme, self.cut(v.name, widths[1] as nat), self.needle(), false),
            cell(self.cut(v.driver, widths[2] as nat), self.theme.dim_style()),
            users_cell(self.theme, v.used_by as int),
            self.size_cell_of(v.size),
            cell_right(
                match v.created {
                    Some(t) => duration_text(elapsed(now, t as int)),
                    None => "-"@,
                },
                self.theme.dim_style(),
            ),
        ];
        if w >= 90 {
            front.push(
                cell(self.cut_front(v.mountpoint, widths[6] as nat), self.theme.faintest()),
            )
        } else {
            front
        }
    }

    /// A network's cells.
    #[verifier::opaque]
    pub open spec fn network_cells(self, n: NetworkView, widths: Seq<u16>, w: u16) -> Seq<
        LineView,
    > {
        let front = seq![
            use_dot(self.theme, self.symbols, n.used_by > 0),
            name_line(
                self.theme,
                self.cut(n.name, widths[1] as nat),
                self.needle(),
                predefined(n.name),
            ),
            cell(self.cut(n.driver, widths[2] as nat), self.theme.dim_style()),
            cell(self.cut(n.scope, widths[3] as nat), self.theme.faintest()),
            users_cell(self.theme, n.used_by as int),
        ];
        if w >= 84 {
            front.push(
                cell(
                    self.cut(join(n.subnets, ", "@), widths[5] as nat),
                    self.theme.faintest(),
                ),
            )
        } else {
            front
        }
    }

    /// The cells of a resource's row.
    pub open spec fn item_cells(self, i: int, widths: Seq<u16>, w: u16, now: int) -> Seq<
        LineView,
    > {
        match self.tab {
            Tab::Containers => self.container_cells(self.containers[i], widths, w),
            Tab::Images => self.image_cells(self.images[i], widths, now),
            Tab::Volumes => self.volume_cells(self.volumes[i], widths, w, now),
            Tab::Networks => self.network_cells(self.networks[i], widths, w),
        }
    }

    /// The `k`th row of the list.
    #[verifier::opaque]
    pub open spec fn row_at(self, k: int, widths: Seq<u16>, w: u16, now: int) -> RowView {
        match self.rows()[k] {
            ViewRow::Group(g) => RowView {
                cells: self.group_cells(self.groups[g as int], widths, w),
                bg: None,
            },
            ViewRow::Item(i) => RowView {
                cells: self.item_cells(i as int, widths, w, now),
                bg: self.theme.stripe_at(stripe_place(self.rows(), k)),
            },
        }
    }

    /// Every row of the list.
    pub open spec fn table_rows(self, widths: Seq<u16>, w: u16, now: int) -> Seq<RowView> {
        Seq::new(self.rows().len(), |k: int| self.row_at(k, widths, w, now))
    }
}

fn busy_verb(app: &App, id: &str) -> (out: Option<&'static str>)
    ensures
        out.deep_view() == app.state().busy(id@),
{
    reveal(verbs);
    match app.pending.get(id) {
        Some(verb) => Some(*verb),
        None => None,
    }
}

fn spinner(app: &App) -> (out: &'static str)
    ensures
        out@ == spin_text(app.state().symbols.ascii, app.state().spinner as int / 2),
{
    reveal(part);
    app.symbols.spin(app.spinner / 2)
}

fn glyph(app: &App, c: &ContainerRow) -> (out: Span)
    ensures
        out.deep_view() == app.state().glyph(c.deep_view()),
{
    reveal(part);
    match busy_verb(app, &c.id) {
        Some(_) => styled(spinner(app), Style::default().fg(app.theme.info)),
        None => status_dot(&app.theme, &app.symbols, c.state, c.health),
    }
}

fn marker(app: &App, c: &ContainerRow) -> (out: Line)
    ensures
        out.deep_view() == app.state().marker(c.deep_view()),
{
    // A column of glyphs jammed against the border reads badly.
    line(two(unstyled(" "), glyph(app, c)))
}

fn row_name(app: &App, c: &ContainerRow, width: u16) -> (out: String)
    ensures
        out@ == app.state().row_name(c.deep_view(), width),
{
    if app.grouping() {
        let label = cut(app, c.service_label(), sub_cells(width, 2) as usize);
        cat2("  ", &label)
    } else {
        cut(app, &c.name, width as usize)
    }
}

fn state_cell(app: &App, c: &ContainerRow, width: u16) -> (out: Line)
    ensures
        out.deep_view() == app.state().state_cell(c.deep_view(), width),
{
    match busy_verb(app, &c.id) {
        Some(verb) => make_cell(
            cut(app, verb, width as usize),
            Style::default().fg(app.theme.info),
        ),
        None => {
            let text = state_label(c.state, &c.status);
            make_cell(
                cut(app, &text, width as usize),
                Style::default().fg(state_color(&app.theme, c.state)),
            )
        },
    }
}

fn cpu_cell(app: &App, c: &ContainerRow) -> (out: Line)
    ensures
        out.deep_view() == app.state().cpu_cell(c.deep_view()),
{
    match app.latest_stat(&c.id) {
        Some(s) => make_cell_right(
            cat2(&s.cpu_text, "%"),
            load_style(&app.theme, Some(s.cpu_percent)),
        ),
        None => make_cell_right(owned("-"), load_style(&app.theme, None)),
    }
}

fn mem_cell(app: &App, c: &ContainerRow) -> (out: Line)
    ensures
        out.deep_view() == app.state().mem_cell(c.deep_view()),
{
    match app.latest_stat(&c.id) {
        Some(s) => make_cell_right(
            bytes(s.mem_bytes),
            load_style(&app.theme, s.mem_percent()),
        ),
        None => make_cell_right(owned("-"), load_style(&app.theme, None)),
    }
}

fn container_cells(app: &App, c: &ContainerRow, widths: &Vec<u16>, w: u16) -> (out: Vec<Line>)
    requires
        widths@.len() == columns_of(Tab::Containers, w).len(),
    ensures
        out.deep_view() == app.state().container_cells(c.deep_view(), widths@, w),
{
    reveal(AppState::container_cells);
    let theme = app.theme;
    let filter = needle(app);
    let mut cells = one_line(marker(app, c));
    put(&mut cells, name_cell(&theme, row_name(app, c, widths[1]), &filter, false));
    let mut at: usize = 2;
    if w >= 70 {
        put(&mut cells, make_cell(cut_front(app, &c.image, widths[2] as usize), theme.dim()));
        at = 3;
    }
    put(&mut cells, state_cell(app, c, widths[at]));
    if w >= 42 {
        put(&mut cells, cpu_cell(app, c));
        put(&mut cells, mem_cell(app, c));
    }
    if w >= 100 {
        let ports = c.ports_display_with(leads_to(app));
        let last: u16 = widths[widths.len() - 1];
        put(&mut cells, make_cell(cut(app, &ports, last as usize), theme.faint_style()));
    }
    cells
}

fn up_text(g: &Group) -> (out: String)
    ensures
        out@ == (if g.running == g.items {
            dec(g.items as nat) + " up"@
        } else {
            dec(g.running as nat) + "/"@ + dec(g.items as nat) + " up"@
        }),
{
    let all = decimal(g.items as u64);
    if g.running == g.items {
        cat2(&all, " up")
    } else {
        let some = decimal(g.running as u64);
        cat4(&some, "/", &all, " up")
    }
}

fn group_cells(app: &App, g: &Group, widths: &Vec<u16>, w: u16) -> (out: Vec<Line>)
    requires
        widths@.len() == columns_of(Tab::Containers, w).len(),
    ensures
        out.deep_view() == app.state().group_cells(g.deep_view(), widths@, w),
{
    reveal(AppState::group_cells);
    reveal(part);
    let theme = app.theme;
    let filter = needle(app);
    let chevron = if g.collapsed {
        app.symbols.arrow_right
    } else {
        app.symbols.arrow_down
    };
    let label = Style::default().fg(
        if g.is_standalone() {
            theme.subtle
        } else {
            theme.primary
        },
    ).bold();
    let mut cells = one_line(
        line(two(unstyled(" "), styled(chevron, Style::default().fg(theme.faint)))),
    );
    put(
        &mut cells,
        line(
            highlight(
                cut(app, g.label(), widths[1] as usize),
                &filter,
                label,
                Style::default().fg(theme.accent).bold(),
            ),
        ),
    );
    if w >= 70 {
        put(&mut cells, blank_line());
    }
    put(&mut cells, make_cell(up_text(g), theme.dim()));
    cells
}

fn image_cells(app: &App, img: &ImageRow, widths: &Vec<u16>, now: i64) -> (out: Vec<Line>)
    requires
        widths@.len() == 7,
    ensures
        out.deep_view() == app.state().image_cells(img.deep_view(), widths@, now as int),
{
    reveal(AppState::image_cells);
    reveal(part);
    let theme = app.theme;
    let filter = needle(app);
    let dot = if img.dangling {
        make_cell(owned(app.symbols.dead), Style::default().fg(theme.warn))
    } else {
        make_use_dot(&theme, &app.symbols, img.containers > 0)
    };
    let mut cells = one_line(dot);
    put(
        &mut cells,
        name_cell(&theme, cut_front(app, &img.repository, widths[1] as usize), &filter, false),
    );
    put(
        &mut cells,
        make_cell(
            cut(app, &img.tag, widths[2] as usize),
            Style::default().fg(
                if img.dangling {
                    theme.warn
                } else {
                    theme.info
                },
            ),
        ),
    );
    put(&mut cells, make_cell(short_id(&img.id), theme.faint_style()));
    put(&mut cells, make_cell_right(bytes_i64(img.size), theme.base()));
    put(
        &mut cells,
        make_cell_right(duration_short(seconds_between(now, img.created)), theme.dim()),
    );
    put(
        &mut cells,
        make_users(
            &theme,
            if img.containers > 0 {
                img.containers as u64
            } else {
                0
            },
        ),
    );
    cells
}

fn size_cell(app: &App, size: Option<i64>) -> (out: Line)
    ensures
        out.deep_view() == app.state().size_cell_of(size),
{
    match size {
        Some(n) => make_cell_right(bytes_i64(n), app.theme.base()),
        None => if app.measuring_volumes {
            make_cell_right(owned(spinner(app)), Style::default().fg(app.theme.info))
        } else {
            make_cell_right(owned("-"), app.theme.faint_style())
        },
    }
}

fn volume_cells(app: &App, v: &VolumeRow, widths: &Vec<u16>, w: u16, now: i64) -> (out: Vec<Line>)
    requires
        widths@.len() == columns_of(Tab::Volumes, w).len(),
    ensures
        out.deep_view() == app.state().volume_cells(v.deep_view(), widths@, w, now as int),
{
    reveal(AppState::volume_cells);
    reveal(part);
    let theme = app.theme;
    let filter = needle(app);
    let mut cells = one_line(make_use_dot(&theme, &app.symbols, v.used_by > 0));
    put(&mut cells, name_cell(&theme, cut(app, &v.name, widths[1] as usize), &filter, false));
    put(&mut cells, make_cell(cut(app, &v.driver, widths[2] as usize), theme.dim()));
    put(&mut cells, make_users(&theme, v.used_by as u64));
    put(&mut cells, size_cell(app, v.size));
    let age = match v.created {
        Some(t) => duration_short(seconds_between(now, t)),
        None => owned("-"),
    };
    put(&mut cells, make_cell_right(age, theme.dim()));
    if w >= 90 {
        put(
            &mut cells,
            make_cell(cut_front(app, &v.mountpoint, widths[6] as usize), theme.faint_style()),
        );
    }
    cells
}

fn network_cells(app: &App, n: &NetworkRow, widths: &Vec<u16>, w: u16) -> (out: Vec<Line>)
    requires
        widths@.len() == columns_of(Tab::Networks, w).len(),
    ensures
        out.deep_view() == app.state().network_cells(n.deep_view(), widths@, w),
{
    reveal(AppState::network_cells);
    reveal(part);
    let theme = app.theme;
    let filter = needle(app);
    let mut cells = one_line(make_use_dot(&theme, &app.symbols, n.used_by > 0));
    put(
        &mut cells,
        name_cell(&theme, cut(app, &n.name, widths[1] as usize), &filter, n.is_predefined()),
    );
    put(&mut cells, make_cell(cut(app, &n.driver, widths[2] as usize), theme.dim()));
    put(&mut cells, make_cell(cut(app, &n.scope, widths[3] as usize), theme.faint_style()));
    put(&mut cells, make_users(&theme, n.used_by as u64));
    if w >= 84 {
        let subnets = joined(&n.subnets, ", ");
        put(
            &mut cells,
            make_cell(cut(app, &subnets, widths[5] as usize), theme.faint_style()),
        );
    }
    cells
}

fn item_cells(app: &App, i: usize, widths: &Vec<u16>, w: u16, now: i64) -> (out: Vec<Line>)
    requires
        widths@.len() == columns_of(app.state().tab, w).len(),
        i < app.state().count(app.state().tab),
    ensures
        out.deep_view() == app.state().item_cells(i as int, widths@, w, now as int),
{
    reveal(part);
    match app.tab {
        Tab::Containers => container_cells(app, &app.containers[i], widths, w),
        Tab::Images => image_cells(app, &app.images[i], widths, now),
        Tab::Volumes => volume_cells(app, &app.volumes[i], widths, w, now),
        Tab::Networks => network_cells(app, &app.networks[i], widths, w),
    }
}

fn header_cells(app: &App, g: usize, widths: &Vec<u16>, w: u16) -> (out: Vec<Line>)
    requires
        widths@.len() == columns_of(Tab::Containers, w).len(),
        g < app.state().groups.len(),
    ensures
        out.deep_view() == app.state().group_cells(
            app.state().groups[g as int],
            widths@,
            w,
        ),
{
    reveal(part);
    group_cells(app, &app.groups[g], widths, w)
}

fn row(app: &App, k: usize, stripe: usize, widths: &Vec<u16>, w: u16, now: i64) -> (out: Row)
    requires
        app.wf(),
        widths@.len() == columns_of(app.state().tab, w).len(),
        k < app.state().rows().len(),
        stripe == stripe_place(app.state().rows(), k as int),
    ensures
        out.deep_view() == app.state().row_at(k as int, widths@, w, now as int),
{
    reveal(AppState::row_at);
    assert(app.state().rows_exist(app.state().tab)) by {
        reveal(AppState::wf);
    }
    let kind = app.view()[k];
    assert(app.state().views.at(app.state().tab)[k as int] == kind);
    match kind {
        ViewRow::Group(g) => Row { cells: header_cells(app, g, widths, w), bg: None },
        ViewRow::Item(i) => Row {
            cells: item_cells(app, i, widths, w, now),
            bg: app.theme.stripe(stripe),
        },
    }
}

/// Every row of the list.
pub fn rows(app: &App, widths: &Vec<u16>, w: u16, now: i64) -> (out: Vec<Row>)
    requires
        app.wf(),
        widths@.len() == columns_of(app.state().tab, w).len(),
    ensures
        out.deep_view() == app.state().table_rows(widths@, w, now as int),
{
    let ghost v = app.state();
    let ghost whole = v.table_rows(widths@, w, now as int);
    let mut out: Vec<Row> = Vec::new();
    let mut stripe: usize = 0;
    let mut k: usize = 0;
    let len: usize = app.view().len();
    assert(out.deep_view() =~= whole.take(0));
    while k < len
        invariant
            k <= len,
            len == v.rows().len(),
            v == app.state(),
            app.wf(),
            widths@.len() == columns_of(v.tab, w).len(),
            whole == v.table_rows(widths@, w, now as int),
            stripe == stripe_place(v.rows(), k as int),
            stripe <= k,
            out.deep_view() == whole.take(k as int),
        decreases len - k,
    {
        let r = row(app, k, stripe, widths, w, now);
        put(&mut out, r);
        assert(whole.take(k + 1) =~= whole.take(k as int).push(whole[k as int]));
        stripe = match app.view()[k] {
            ViewRow::Group(_) => 0,
            ViewRow::Item(_) => stripe + 1,
        };
        k += 1;
    }
    assert(whole.take(whole.len() as int) =~= whole);
    out
}

} // verus!
