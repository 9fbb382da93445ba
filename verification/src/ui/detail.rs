//! The detail pane: everything about the selected resource that doesn't fit in
//! a table row.

use vstd::prelude::*;

use crate::app::grouping::stack_key;
use crate::app::state::{part, App, AppState};
use crate::app::{Group, GroupView, Tab};
use crate::docker::model::{
    port_text_with, predefined, reference_text, service_text, ContainerRow, ContainerView, Health,
    ImageRow, ImageView, NetworkRow, NetworkView, PortBinding, PortView, VolumeRow, VolumeView,
};
use crate::docker::stats::{Percent, StatSample, StatView, EIGHTY, FIFTY};
use crate::geometry::{minus, sub_cells, Rect};
use crate::text::{
    cat2, cat3, chars_of, dec, decimal, find_pattern, find_text, owned, pad_left, pad_right,
    padded_left, padded_right, put, same, string_between,
};
use crate::ui::layout::{rows_from, rows_of};
use crate::ui::screen::{
    blank_line, block_in, gap, line, line_in, ln, no_paint, no_spans, one, one_line,
    paint_block, paint_line, sp, span, styled, two, Gauge, GaugeView, Line, LineView, Paint,
    PaintView, Span, SpanView, Widget, WidgetView, Wrap,
};
use crate::ui::theme::{colored, plain, strong, Color, Glyphs, Style, Symbols, SymbolsView, Theme};
use crate::ui::{cut_front, leads_to, pane, pane_of, title, title_of};
use crate::util::format::{
    age_at, age_text, bytes, bytes_i64, bytes_or_dash, bytes_text, short, short_id,
};

verus! {

broadcast use vstd::string::group_string_axioms;

// ---------------------------------------------------------------------------
// Line builders
// ---------------------------------------------------------------------------

/// What there is to say of nothing.
pub open spec fn nothing_line(theme: Theme) -> LineView {
    ln(seq![sp("nothing selected"@, theme.dim_style())])
}

/// The name at the top.
pub open spec fn heading_line(theme: Theme, text: Seq<char>) -> LineView {
    ln(seq![sp(text, strong(theme.primary))])
}

/// The name of a section.
pub open spec fn section_line(theme: Theme, text: Seq<char>) -> LineView {
    ln(seq![sp(text, strong(theme.faint))])
}

/// A field and its value.
pub open spec fn field_line(theme: Theme, label: Seq<char>, value: Seq<char>) -> LineView {
    ln(seq![sp(pad_right(label, 9), theme.faintest()), sp(value, colored(theme.text))])
}

/// A field whose value is coloured.
pub open spec fn colored_line(theme: Theme, label: Seq<char>, value: Seq<char>, color: Color) -> LineView {
    ln(seq![sp(pad_right(label, 9), theme.faintest()), sp(value, strong(color))])
}

impl AppState {
    /// One of several.
    pub open spec fn bullet_line(self, text: Seq<char>, muted: bool) -> LineView {
        ln(
            seq![
                sp(self.symbols.bullet + " "@, self.theme.faintest()),
                sp(
                    text,
                    if muted {
                        self.theme.dim_style()
                    } else {
                        colored(self.theme.text)
                    },
                ),
            ],
        )
    }

    /// A section of lines, with a gap before it.
    pub open spec fn section_of(self, name: Seq<char>, lines: Seq<LineView>) -> Seq<LineView> {
        seq![gap(), section_line(self.theme, name)] + lines
    }

    /// A section of lines, with a gap before it, unless there are none.
    pub open spec fn section_if_any(self, name: Seq<char>, lines: Seq<LineView>) -> Seq<LineView> {
        if lines.len() > 0 {
            self.section_of(name, lines)
        } else {
            Seq::empty()
        }
    }

    /// One bullet for each text.
    pub open spec fn bullets(self, texts: Seq<Seq<char>>) -> Seq<LineView> {
        texts.map_values(|t: Seq<char>| self.bullet_line(t, false))
    }

    /// One bullet for each text, cut to fit.
    pub open spec fn cut_bullets(self, texts: Seq<Seq<char>>, width: u16) -> Seq<LineView> {
        texts.map_values(
            |t: Seq<char>| self.bullet_line(self.cut_front(t, minus(width, 4) as nat), false),
        )
    }

    /// One bullet for each port.
    pub open spec fn port_bullets(self, ports: Seq<PortView>) -> Seq<LineView> {
        ports.map_values(
            |p: PortView|
                self.bullet_line(port_text_with(p, self.symbols.leads_to), p.public is None),
        )
    }
}

/// Who uses something.
pub open spec fn users_text(n: int) -> Seq<char> {
    if n > 0 {
        dec(n as nat) + " container(s)"@
    } else {
        "nothing"@
    }
}

/// Yes or no.
pub open spec fn yes_no_text(b: bool) -> Seq<char> {
    if b {
        "yes"@
    } else {
        "no"@
    }
}

fn empty(app: &App) -> (out: Line)
    ensures
        out.deep_view() == nothing_line(app.state().theme),
{
    line(one(styled("nothing selected", app.theme.dim())))
}

fn heading(app: &App, text: &str) -> (out: Line)
    ensures
        out.deep_view() == heading_line(app.state().theme, text@),
{
    line(one(styled(text, Style::default().fg(app.theme.primary).bold())))
}

fn section(app: &App, text: &str) -> (out: Line)
    ensures
        out.deep_view() == section_line(app.state().theme, text@),
{
    line(one(styled(text, Style::default().fg(app.theme.faint).bold())))
}

fn field(app: &App, label: &str, value: String) -> (out: Line)
    ensures
        out.deep_view() == field_line(app.state().theme, label@, value@),
{
    line(
        two(span(padded_right(label, 9), app.theme.faint_style()), span(value, app.theme.base())),
    )
}

fn colored_field(app: &App, label: &str, value: String, color: Color) -> (out: Line)
    ensures
        out.deep_view() == colored_line(app.state().theme, label@, value@, color),
{
    line(
        two(
            span(padded_right(label, 9), app.theme.faint_style()),
            span(value, Style::default().fg(color).bold()),
        ),
    )
}

fn bullet(app: &App, text: String, muted: bool) -> (out: Line)
    ensures
        out.deep_view() == app.state().bullet_line(text@, muted),
{
    reveal(part);
    let style = if muted {
        app.theme.dim()
    } else {
        app.theme.base()
    };
    line(two(span(cat2(app.symbols.bullet, " "), app.theme.faint_style()), span(text, style)))
}

fn yes_no(b: bool) -> (out: String)
    ensures
        out@ == yes_no_text(b),
{
    if b {
        owned("yes")
    } else {
        owned("no")
    }
}

fn users(n: u64) -> (out: String)
    ensures
        out@ == users_text(n as int),
{
    if n > 0 {
        let count = decimal(n);
        cat2(&count, " container(s)")
    } else {
        owned("nothing")
    }
}

fn begin_section(app: &App, out: &mut Vec<Line>, name: &str)
    ensures
        final(out).deep_view() == old(out).deep_view() + seq![
            gap(),
            section_line(app.state().theme, name@),
        ],
{
    let ghost before = out.deep_view();
    put(out, blank_line());
    put(out, section(app, name));
    assert(out.deep_view() =~= before + seq![gap(), section_line(app.state().theme, name@)]);
}

fn push_bullets(app: &App, out: &mut Vec<Line>, texts: &Vec<String>)
    ensures
        final(out).deep_view() == old(out).deep_view() + app.state().bullets(texts.deep_view()),
{
    let ghost before = out.deep_view();
    let ghost whole = app.state().bullets(texts.deep_view());
    let mut i: usize = 0;
    assert(before + whole.take(0) =~= before);
    while i < texts.len()
        invariant
            i <= texts.len(),
            whole == app.state().bullets(texts.deep_view()),
            whole.len() == texts@.len(),
            out.deep_view() == before + whole.take(i as int),
        decreases texts.len() - i,
    {
        assert(texts.deep_view()[i as int] == texts@[i as int]@);
        put(out, bullet(app, owned(&texts[i]), false));
        assert(before + whole.take(i + 1) =~= (before + whole.take(i as int)).push(
            whole[i as int],
        ));
        i += 1;
    }
    assert(whole.take(whole.len() as int) =~= whole);
}

fn push_cut_bullets(app: &App, out: &mut Vec<Line>, texts: &Vec<String>, width: u16)
    ensures
        final(out).deep_view() == old(out).deep_view() + app.state().cut_bullets(
            texts.deep_view(),
            width,
        ),
{
    let ghost before = out.deep_view();
    let ghost whole = app.state().cut_bullets(texts.deep_view(), width);
    let mut i: usize = 0;
    assert(before + whole.take(0) =~= before);
    while i < texts.len()
        invariant
            i <= texts.len(),
            whole == app.state().cut_bullets(texts.deep_view(), width),
            whole.len() == texts@.len(),
            out.deep_view() == before + whole.take(i as int),
        decreases texts.len() - i,
    {
        assert(texts.deep_view()[i as int] == texts@[i as int]@);
        let text = cut_front(app, &texts[i], sub_cells(width, 4) as usize);
        put(out, bullet(app, text, false));
        assert(before + whole.take(i + 1) =~= (before + whole.take(i as int)).push(
            whole[i as int],
        ));
        i += 1;
    }
    assert(whole.take(whole.len() as int) =~= whole);
}

fn push_ports(app: &App, out: &mut Vec<Line>, ports: &Vec<PortBinding>)
    ensures
        final(out).deep_view() == old(out).deep_view() + app.state().port_bullets(
            ports.deep_view(),
        ),
{
    let ghost before = out.deep_view();
    let ghost whole = app.state().port_bullets(ports.deep_view());
    let mut i: usize = 0;
    assert(before + whole.take(0) =~= before);
    while i < ports.len()
        invariant
            i <= ports.len(),
            whole == app.state().port_bullets(ports.deep_view()),
            whole.len() == ports@.len(),
            out.deep_view() == before + whole.take(i as int),
        decreases ports.len() - i,
    {
        assert(ports.deep_view()[i as int] == ports@[i as int].deep_view());
        let text = ports[i].display_with(leads_to(app));
        put(out, bullet(app, text, ports[i].public.is_none()));
        assert(before + whole.take(i + 1) =~= (before + whole.take(i as int)).push(
            whole[i as int],
        ));
        i += 1;
    }
    assert(whole.take(whole.len() as int) =~= whole);
}

// ---------------------------------------------------------------------------
// Per-tab content
// ---------------------------------------------------------------------------

/// The health of a container in words, and its colour; none when there is
/// nothing to say.
pub open spec fn health_line(theme: Theme, health: Health) -> Seq<LineView> {
    match health {
        Health::Healthy => seq![colored_line(theme, "health"@, "healthy"@, theme.success)],
        Health::Unhealthy => seq![colored_line(theme, "health"@, "unhealthy"@, theme.danger)],
        Health::Starting => seq![colored_line(theme, "health"@, "starting"@, theme.warn)],
        Health::Absent => Seq::empty(),
    }
}

/// When something was made, if that is known.
pub open spec fn created_line(theme: Theme, created: Option<i64>, now: int) -> Seq<LineView> {
    match created {
        Some(at) => seq![field_line(theme, "created"@, age_text(now, at as int))],
        None => Seq::empty(),
    }
}

/// The compose project something belongs to, if any.
pub open spec fn compose_line(theme: Theme, project: Option<Seq<char>>) -> Seq<LineView> {
    match project {
        Some(name) => seq![field_line(theme, "compose"@, name)],
        None => Seq::empty(),
    }
}

impl AppState {
    /// The fields of a container. The tag can move under a running container, so
    /// the resolved image id is worth showing next to it.
    pub open spec fn container_fields(self, c: ContainerView, now: int) -> Seq<LineView> {
        let t = self.theme;
        seq![
            heading_line(t, c.name),
            field_line(t, "id"@, short(c.id)),
            field_line(t, "image"@, c.image),
        ] + (if c.image_id.len() > 0 {
            seq![field_line(t, "image id"@, short(c.image_id))]
        } else {
            Seq::empty()
        }) + seq![field_line(t, "state"@, c.status)] + health_line(t, c.health) + seq![
            field_line(t, "created"@, age_text(now, c.created as int)),
        ] + (match (c.stack, c.service) {
            (Some(stack), Some(service)) => seq![
                field_line(t, "stack"@, stack + " / "@ + service),
            ],
            _ => Seq::empty(),
        })
    }

    /// The sections of a container.
    pub open spec fn container_sections(self, c: ContainerView, width: u16) -> Seq<LineView> {
        self.section_of(
            "PORTS"@,
            if c.ports.len() == 0 {
                seq![self.bullet_line("none published"@, true)]
            } else {
                self.port_bullets(c.ports)
            },
        ) + self.section_if_any("NETWORKS"@, self.bullets(c.networks)) + self.section_if_any(
            "MOUNTS"@,
            self.cut_bullets(c.mounts, width),
        ) + (if c.command.len() > 0 {
            self.section_of("COMMAND"@, seq![self.bullet_line(c.command, true)])
        } else {
            Seq::empty()
        })
    }

    /// Everything about a container.
    #[verifier::opaque]
    pub open spec fn container_lines(self, c: ContainerView, width: u16, now: int) -> Seq<LineView> {
        self.container_fields(c, now) + self.container_sections(c, width)
    }

    /// Everything about an image.
    #[verifier::opaque]
    pub open spec fn image_lines(self, i: ImageView, width: u16, now: int) -> Seq<LineView> {
        let t = self.theme;
        seq![
            heading_line(t, reference_text(i)),
            field_line(t, "id"@, short(i.id)),
            field_line(t, "size"@, bytes_or_dash(i.size as int)),
        ] + (if i.shared_size > 0 {
            seq![field_line(t, "shared"@, bytes_or_dash(i.shared_size as int))]
        } else {
            Seq::empty()
        }) + seq![
            field_line(t, "created"@, age_text(now, i.created as int)),
            field_line(t, "in use by"@, users_text(i.containers as int)),
        ] + (if i.all_tags.len() > 1 {
            self.section_of("TAGS"@, self.cut_bullets(i.all_tags, width))
        } else {
            Seq::empty()
        })
    }

    /// Everything about a volume.
    #[verifier::opaque]
    pub open spec fn volume_lines(self, v: VolumeView, width: u16, now: int) -> Seq<LineView> {
        let t = self.theme;
        seq![
            heading_line(t, v.name),
            field_line(t, "driver"@, v.driver),
            field_line(t, "used by"@, users_text(v.used_by as int)),
        ] + (match v.size {
            Some(n) => seq![field_line(t, "size"@, bytes_or_dash(n as int))],
            None => Seq::empty(),
        }) + created_line(t, v.created, now) + compose_line(t, v.compose_project) + self.section_of(
            "MOUNTPOINT"@,
            seq![self.bullet_line(self.cut_front(v.mountpoint, minus(width, 4) as nat), true)],
        )
    }

    /// Everything about a network.
    #[verifier::opaque]
    pub open spec fn network_lines(self, n: NetworkView, now: int) -> Seq<LineView> {
        let t = self.theme;
        seq![
            heading_line(t, n.name),
            field_line(t, "id"@, short(n.id)),
            field_line(t, "driver"@, n.driver),
            field_line(t, "scope"@, n.scope),
            field_line(t, "internal"@, yes_no_text(n.internal)),
            field_line(t, "ipv6"@, yes_no_text(n.ipv6)),
            field_line(t, "used by"@, users_text(n.used_by as int)),
        ] + created_line(t, n.created, now) + compose_line(t, n.compose_project)
            + self.section_if_any("SUBNETS"@, self.bullets(n.subnets)) + (if predefined(n.name) {
            seq![
                gap(),
                self.bullet_line("built-in network, cannot be removed"@, true),
            ]
        } else {
            Seq::empty()
        })
    }
}

fn push_created(app: &App, out: &mut Vec<Line>, created: Option<i64>, now: i64)
    ensures
        final(out).deep_view() == old(out).deep_view() + created_line(
            app.state().theme,
            created,
            now as int,
        ),
{
    let ghost before = out.deep_view();
    if let Some(at) = created {
        put(out, field(app, "created", age_at(now, at)));
    }
    assert(out.deep_view() =~= before + created_line(app.state().theme, created, now as int));
}

fn push_compose(app: &App, out: &mut Vec<Line>, project: &Option<String>)
    ensures
        final(out).deep_view() == old(out).deep_view() + compose_line(
            app.state().theme,
            project.deep_view(),
        ),
{
    let ghost before = out.deep_view();
    if let Some(name) = project {
        put(out, field(app, "compose", owned(name)));
    }
    assert(out.deep_view() =~= before + compose_line(app.state().theme, project.deep_view()));
}

fn push_health(app: &App, out: &mut Vec<Line>, health: Health)
    ensures
        final(out).deep_view() == old(out).deep_view() + health_line(app.state().theme, health),
{
    let ghost before = out.deep_view();
    match health {
        Health::Healthy => put(
            out,
            colored_field(app, "health", owned("healthy"), app.theme.success),
        ),
        Health::Unhealthy => put(
            out,
            colored_field(app, "health", owned("unhealthy"), app.theme.danger),
        ),
        Health::Starting => put(
            out,
            colored_field(app, "health", owned("starting"), app.theme.warn),
        ),
        Health::Absent => {},
    }
    assert(out.deep_view() =~= before + health_line(app.state().theme, health));
}

fn container_fields(app: &App, c: &ContainerRow, now: i64) -> (out: Vec<Line>)
    ensures
        out.deep_view() == app.state().container_fields(c.deep_view(), now as int),
{
    let mut out = one_line(heading(app, &c.name));
    put(&mut out, field(app, "id", short_id(&c.id)));
    put(&mut out, field(app, "image", owned(&c.image)));
    if !c.image_id.as_str().is_empty() {
        put(&mut out, field(app, "image id", short_id(&c.image_id)));
    }
    put(&mut out, field(app, "state", owned(&c.status)));
    push_health(app, &mut out, c.health);
    put(&mut out, field(app, "created", age_at(now, c.created)));
    if let (Some(stack), Some(service)) = (&c.stack, &c.service) {
        put(&mut out, field(app, "stack", cat3(stack, " / ", service)));
    }
    assert(out.deep_view() =~= app.state().container_fields(c.deep_view(), now as int));
    out
}

fn push_container_sections(app: &App, out: &mut Vec<Line>, c: &ContainerRow, width: u16)
    ensures
        final(out).deep_view() == old(out).deep_view() + app.state().container_sections(
            c.deep_view(),
            width,
        ),
{
    let ghost before = out.deep_view();
    begin_section(app, out, "PORTS");
    if c.ports.len() == 0 {
        put(out, bullet(app, owned("none published"), true));
    } else {
        push_ports(app, out, &c.ports);
    }
    if c.networks.len() > 0 {
        begin_section(app, out, "NETWORKS");
        push_bullets(app, out, &c.networks);
    }
    if c.mounts.len() > 0 {
        begin_section(app, out, "MOUNTS");
        push_cut_bullets(app, out, &c.mounts, width);
    }
    if !c.command.as_str().is_empty() {
        begin_section(app, out, "COMMAND");
        put(out, bullet(app, owned(&c.command), true));
    }
    assert(out.deep_view() =~= before + app.state().container_sections(c.deep_view(), width));
}

/// Everything about a container.
pub fn container_lines(app: &App, c: &ContainerRow, width: u16, now: i64) -> (out: Vec<Line>)
    ensures
        out.deep_view() == app.state().container_lines(c.deep_view(), width, now as int),
{
    reveal(AppState::container_lines);
    let mut out = container_fields(app, c, now);
    push_container_sections(app, &mut out, c, width);
    out
}

/// Everything about an image.
pub fn image_lines(app: &App, i: &ImageRow, width: u16, now: i64) -> (out: Vec<Line>)
    ensures
        out.deep_view() == app.state().image_lines(i.deep_view(), width, now as int),
{
    reveal(AppState::image_lines);
    let reference = i.reference();
    let mut out = one_line(heading(app, &reference));
    put(&mut out, field(app, "id", short_id(&i.id)));
    put(&mut out, field(app, "size", bytes_i64(i.size)));
    if i.shared_size > 0 {
        put(&mut out, field(app, "shared", bytes_i64(i.shared_size)));
    }
    put(&mut out, field(app, "created", age_at(now, i.created)));
    let count: u64 = if i.containers > 0 {
        i.containers as u64
    } else {
        0
    };
    put(&mut out, field(app, "in use by", users(count)));
    if i.all_tags.len() > 1 {
        begin_section(app, &mut out, "TAGS");
        push_cut_bullets(app, &mut out, &i.all_tags, width);
    }
    assert(out.deep_view() =~= app.state().image_lines(i.deep_view(), width, now as int));
    out
}

/// Everything about a volume.
pub fn volume_lines(app: &App, v: &VolumeRow, width: u16, now: i64) -> (out: Vec<Line>)
    ensures
        out.deep_view() == app.state().volume_lines(v.deep_view(), width, now as int),
{
    reveal(AppState::volume_lines);
    let mut out = one_line(heading(app, &v.name));
    put(&mut out, field(app, "driver", owned(&v.driver)));
    put(&mut out, field(app, "used by", users(v.used_by as u64)));
    if let Some(size) = v.size {
        put(&mut out, field(app, "size", bytes_i64(size)));
    }
    push_created(app, &mut out, v.created, now);
    push_compose(app, &mut out, &v.compose_project);
    begin_section(app, &mut out, "MOUNTPOINT");
    let path = cut_front(app, &v.mountpoint, sub_cells(width, 4) as usize);
    put(&mut out, bullet(app, path, true));
    assert(out.deep_view() =~= app.state().volume_lines(v.deep_view(), width, now as int));
    out
}

/// Everything about a network.
pub fn network_lines(app: &App, n: &NetworkRow, now: i64) -> (out: Vec<Line>)
    ensures
        out.deep_view() == app.state().network_lines(n.deep_view(), now as int),
{
    reveal(AppState::network_lines);
    let mut out = one_line(heading(app, &n.name));
    put(&mut out, field(app, "id", short_id(&n.id)));
    put(&mut out, field(app, "driver", owned(&n.driver)));
    put(&mut out, field(app, "scope", owned(&n.scope)));
    put(&mut out, field(app, "internal", yes_no(n.internal)));
    put(&mut out, field(app, "ipv6", yes_no(n.ipv6)));
    put(&mut out, field(app, "used by", users(n.used_by as u64)));
    push_created(app, &mut out, n.created, now);
    push_compose(app, &mut out, &n.compose_project);
    if n.subnets.len() > 0 {
        begin_section(app, &mut out, "SUBNETS");
        push_bullets(app, &mut out, &n.subnets);
    }
    if n.is_predefined() {
        put(&mut out, blank_line());
        put(&mut out, bullet(app, owned("built-in network, cannot be removed"), true));
    }
    assert(out.deep_view() =~= app.state().network_lines(n.deep_view(), now as int));
    out
}

// ---------------------------------------------------------------------------
// Stacks
// ---------------------------------------------------------------------------

/// The shortest true thing to say about a container's state.
pub open spec fn summary_of(c: ContainerView) -> Seq<char> {
    if c.status.len() == 0 {
        c.state.label_text()
    } else {
        c.status.take(find_text(c.status, " ("@, 0))
    }
}

fn state_summary(c: &ContainerRow) -> (out: String)
    ensures
        out@ == summary_of(c.deep_view()),
{
    let v = chars_of(&c.status);
    if v.len() == 0 {
        return owned(c.state.label());
    }
    let end = find_pattern(&v, &chars_of(" ("));
    let out = string_between(&v, 0, end);
    assert(out@ =~= c.status@.take(end as int));
    out
}

impl AppState {
    /// The bullets of a stack's members among the first `n` containers.
    pub open spec fn member_lines(self, key: Seq<char>, n: int) -> Seq<LineView>
        decreases n,
    {
        if n <= 0 {
            Seq::empty()
        } else {
            let low = self.member_lines(key, n - 1);
            let c = self.containers[n - 1];
            if stack_key(c) == key {
                low.push(
                    self.bullet_line(
                        service_text(c) + "  "@ + summary_of(c),
                        !c.state.running(),
                    ),
                )
            } else {
                low
            }
        }
    }

    /// The readings of a stack's members among the first `n` containers. Only
    /// running members report, so these are the stack's live cost.
    pub open spec fn member_stats(self, key: Seq<char>, n: int) -> Seq<StatView>
        decreases n,
    {
        if n <= 0 {
            Seq::empty()
        } else {
            let low = self.member_stats(key, n - 1);
            let c = self.containers[n - 1];
            match (stack_key(c) == key, self.stat(c.id)) {
                (true, Some(s)) => low.push(s),
                _ => low,
            }
        }
    }

    /// The readings of a stack.
    pub open spec fn stack_stats(self, key: Seq<char>) -> Seq<StatView> {
        self.member_stats(key, self.containers.len() as int)
    }
}

/// The memory that some readings add up to, held to the largest there is.
pub open spec fn memory_total(stats: Seq<StatView>) -> u64
    decreases stats.len(),
{
    if stats.len() == 0 {
        0
    } else {
        let low = memory_total(stats.drop_last());
        if low + stats.last().mem_bytes > u64::MAX {
            u64::MAX
        } else {
            (low + stats.last().mem_bytes) as u64
        }
    }
}

impl AppState {
    /// What a whole stack looks like: its services, and what the lot of them are
    /// costing. The aggregate is the reason to look here rather than at the rows
    /// — "this project is using 3 GB" isn't visible anywhere else.
    #[verifier::opaque]
    pub open spec fn stack_lines(self, g: GroupView, cpu: Seq<char>) -> Seq<LineView> {
        let t = self.theme;
        let stats = self.stack_stats(g.key);
        seq![
            heading_line(t, g.label()),
            field_line(
                t,
                "services"@,
                if g.collapsed {
                    dec(g.items) + " (folded)"@
                } else {
                    dec(g.items)
                },
            ),
            colored_line(
                t,
                "running"@,
                dec(g.running) + "/"@ + dec(g.items),
                if g.running == g.items {
                    t.success
                } else {
                    t.warn
                },
            ),
        ] + (if stats.len() > 0 {
            seq![
                field_line(t, "cpu"@, cpu + "%"@),
                field_line(t, "memory"@, bytes_text(memory_total(stats) as nat)),
            ]
        } else {
            Seq::empty()
        }) + self.section_of(
            "SERVICES"@,
            self.member_lines(g.key, self.containers.len() as int),
        )
    }
}

fn belongs(c: &ContainerRow, key: &str) -> (out: bool)
    ensures
        out == (stack_key(c.deep_view()) == key@),
{
    match &c.stack {
        Some(stack) => same(stack, key),
        None => {
            let empty = chars_of(key).len() == 0;
            assert(empty ==> key@ =~= Seq::<char>::empty());
            empty
        },
    }
}

fn push_members(app: &App, out: &mut Vec<Line>, key: &str)
    ensures
        final(out).deep_view() == old(out).deep_view() + app.state().member_lines(
            key@,
            app.state().containers.len() as int,
        ),
{
    reveal(part);
    let ghost before = out.deep_view();
    let ghost v = app.state();
    let mut i: usize = 0;
    assert(before + v.member_lines(key@, 0) =~= before);
    while i < app.containers.len()
        invariant
            i <= app.containers.len(),
            v == app.state(),
            v.containers == app.containers.deep_view(),
            out.deep_view() == before + v.member_lines(key@, i as int),
        decreases app.containers.len() - i,
    {
        let c = &app.containers[i];
        assert(v.containers[i as int] == c.deep_view());
        if belongs(c, key) {
            let state = state_summary(c);
            put(
                out,
                bullet(app, cat3(c.service_label(), "  ", &state), !c.state.is_running()),
            );
        }
        assert(out.deep_view() =~= before + v.member_lines(key@, i + 1));
        i += 1;
    }
}

fn add_memory(total: u64, more: u64) -> (out: u64)
    ensures
        out == (if total + more > u64::MAX {
            u64::MAX as int
        } else {
            total + more
        }),
{
    if more > u64::MAX - total {
        u64::MAX
    } else {
        total + more
    }
}

fn stack_memory(app: &App, key: &str) -> (out: Option<u64>)
    ensures
        out == (if app.state().stack_stats(key@).len() > 0 {
            Some(memory_total(app.state().stack_stats(key@)))
        } else {
            None
        }),
{
    reveal(part);
    let ghost v = app.state();
    let mut total: u64 = 0;
    let mut any: bool = false;
    let mut i: usize = 0;
    while i < app.containers.len()
        invariant
            i <= app.containers.len(),
            v == app.state(),
            v.containers == app.containers.deep_view(),
            any == (v.member_stats(key@, i as int).len() > 0),
            total == memory_total(v.member_stats(key@, i as int)),
        decreases app.containers.len() - i,
    {
        let c = &app.containers[i];
        assert(v.containers[i as int] == c.deep_view());
        let ghost low = v.member_stats(key@, i as int);
        if belongs(c, key) {
            if let Some(s) = app.latest_stat(&c.id) {
                any = true;
                assert(low.push(s.deep_view()).drop_last() =~= low);
                total = add_memory(total, s.mem_bytes);
            }
        }
        i += 1;
    }
    if any {
        Some(total)
    } else {
        None
    }
}

fn services_text(g: &Group) -> (out: String)
    ensures
        out@ == (if g.collapsed {
            dec(g.items as nat) + " (folded)"@
        } else {
            dec(g.items as nat)
        }),
{
    let count = decimal(g.items as u64);
    if g.collapsed {
        cat2(&count, " (folded)")
    } else {
        count
    }
}

/// What a whole stack looks like. `cpu` is what the processor shares of its
/// readings add up to.
pub fn stack_lines(app: &App, g: &Group, cpu: &str) -> (out: Vec<Line>)
    ensures
        out.deep_view() == app.state().stack_lines(g.deep_view(), cpu@),
{
    reveal(AppState::stack_lines);
    let theme = app.theme;
    let mut out = one_line(heading(app, g.label()));
    put(&mut out, field(app, "services", services_text(g)));
    let up = decimal(g.running as u64);
    let all = decimal(g.items as u64);
    put(
        &mut out,
        colored_field(
            app,
            "running",
            cat3(&up, "/", &all),
            if g.running == g.items {
                theme.success
            } else {
                theme.warn
            },
        ),
    );
    if let Some(memory) = stack_memory(app, &g.key) {
        put(&mut out, field(app, "cpu", cat2(cpu, "%")));
        put(&mut out, field(app, "memory", bytes(memory)));
    }
    begin_section(app, &mut out, "SERVICES");
    push_members(app, &mut out, &g.key);
    assert(out.deep_view() =~= app.state().stack_lines(g.deep_view(), cpu@));
    out
}

/// The processor shares of the stack under the cursor, for adding up.
pub fn stack_shares(app: &App) -> (out: Vec<Percent>)
    ensures
        out@ == match app.state().group() {
            Some(g) => app.state().stack_stats(g.key).map_values(|s: StatView| s.cpu_percent),
            None => Seq::<Percent>::empty(),
        },
{
    let mut out: Vec<Percent> = Vec::new();
    let g = match app.current_group() {
        Some(g) => g,
        None => {
            return out;
        },
    };
    reveal(part);
    let ghost v = app.state();
    let ghost key = g.key@;
    let ghost share = |s: StatView| s.cpu_percent;
    let mut i: usize = 0;
    assert(out@ =~= v.member_stats(key, 0).map_values(share));
    while i < app.containers.len()
        invariant
            i <= app.containers.len(),
            v == app.state(),
            key == g.key@,
            share == (|s: StatView| s.cpu_percent),
            v.containers == app.containers.deep_view(),
            out@ == v.member_stats(key, i as int).map_values(share),
        decreases app.containers.len() - i,
    {
        let c = &app.containers[i];
        assert(v.containers[i as int] == c.deep_view());
        if belongs(c, &g.key) {
            if let Some(s) = app.latest_stat(&c.id) {
                out.push(s.cpu_percent);
            }
        }
        assert(out@ =~= v.member_stats(key, i + 1).map_values(share));
        i += 1;
    }
    out
}

// ---------------------------------------------------------------------------
// Gauges
// ---------------------------------------------------------------------------

/// The colour of a gauge.
pub open spec fn gauge_hue(theme: Theme, percent: Percent) -> Color {
    if percent.bits >= EIGHTY {
        theme.danger
    } else if percent.bits >= FIFTY {
        theme.warn
    } else {
        theme.success
    }
}

fn gauge_color(theme: &Theme, percent: Percent) -> (out: Color)
    ensures
        out == gauge_hue(*theme, percent),
{
    if percent.bits >= EIGHTY {
        theme.danger
    } else if percent.bits >= FIFTY {
        theme.warn
    } else {
        theme.success
    }
}

/// A gauge with its label on the left, which lines up with the field list below
/// instead of floating in the centre.
pub open spec fn gauge_of(theme: Theme, percent: Percent, label: Seq<char>) -> GaugeView {
    GaugeView {
        ascii: theme.glyphs == Glyphs::Ascii,
        filled: colored(gauge_hue(theme, percent)),
        unfilled: colored(theme.border),
        percent,
        label: sp(label, strong(theme.text)),
    }
}

fn gauge(theme: &Theme, percent: Percent, label: String) -> (out: Gauge)
    ensures
        out.deep_view() == gauge_of(*theme, percent, label@),
{
    Gauge {
        ascii: theme.glyphs == Glyphs::Ascii,
        filled: Style::default().fg(gauge_color(theme, percent)),
        unfilled: Style::default().fg(theme.border),
        percent,
        label: span(label, Style::default().fg(theme.text).bold()),
    }
}

/// The share of the memory limit, as far as there is one.
pub open spec fn memory_share(s: StatView) -> Percent {
    match s.mem_percent() {
        Some(p) => p,
        None => Percent { bits: 0 },
    }
}

/// What went in and out. The memory bar shows usage against the limit; the limit
/// is spelled out here rather than crowding the bar's label.
pub open spec fn io_spans(theme: Theme, symbols: SymbolsView, s: StatView) -> Seq<SpanView> {
    let f = theme.faintest();
    let d = theme.dim_style();
    (if s.mem_limit > 0 {
        seq![sp("of "@, f), sp(bytes_text(s.mem_limit as nat) + "   "@, d)]
    } else {
        Seq::empty()
    }) + seq![
        sp("net "@, f),
        sp(symbols.received + bytes_text(s.net_rx as nat) + " "@, d),
        sp(symbols.sent + bytes_text(s.net_tx as nat), d),
        sp("   disk "@, f),
        sp(symbols.received + bytes_text(s.block_read as nat) + " "@, d),
        sp(symbols.sent + bytes_text(s.block_write as nat), d),
        sp("   pids "@, f),
        sp(dec(s.pids as nat), d),
    ]
}

fn io_line(theme: &Theme, symbols: &Symbols, s: &StatSample) -> (out: Vec<Span>)
    ensures
        out.deep_view() == io_spans(*theme, symbols.deep_view(), s.deep_view()),
{
    let f = theme.faint_style();
    let d = theme.dim();
    let mut out = no_spans();
    if s.mem_limit > 0 {
        let limit = bytes(s.mem_limit);
        put(&mut out, styled("of ", f));
        put(&mut out, span(cat2(&limit, "   "), d));
    }
    let rx = bytes(s.net_rx);
    let tx = bytes(s.net_tx);
    let read = bytes(s.block_read);
    let write = bytes(s.block_write);
    put(&mut out, styled("net ", f));
    put(&mut out, span(cat3(symbols.received, &rx, " "), d));
    put(&mut out, span(cat2(symbols.sent, &tx), d));
    put(&mut out, styled("   disk ", f));
    put(&mut out, span(cat3(symbols.received, &read, " "), d));
    put(&mut out, span(cat2(symbols.sent, &write), d));
    put(&mut out, styled("   pids ", f));
    put(&mut out, span(decimal(s.pids), d));
    assert(out.deep_view() =~= io_spans(*theme, symbols.deep_view(), s.deep_view()));
    out
}

/// The live gauges of a reading, in three rows.
pub open spec fn gauges_of(theme: Theme, symbols: SymbolsView, s: StatView, area: Rect) -> Seq<
    PaintView,
> {
    seq![
        PaintView {
            area: rows_of(area, 0, 1),
            widget: WidgetView::Gauge(
                gauge_of(theme, s.cpu_percent, "cpu "@ + pad_left(s.cpu_text, 6) + "%"@),
            ),
        },
        PaintView {
            area: rows_of(area, 1, 1),
            widget: WidgetView::Gauge(
                gauge_of(
                    theme,
                    memory_share(s),
                    "mem "@ + pad_left(bytes_text(s.mem_bytes as nat), 6),
                ),
            ),
        },
        line_in(rows_of(area, 2, 1), ln(io_spans(theme, symbols, s))),
    ]
}

fn push_gauges(
    theme: &Theme,
    symbols: &Symbols,
    s: &StatSample,
    area: Rect,
    out: &mut Vec<Paint>,
)
    ensures
        final(out).deep_view() == old(out).deep_view() + gauges_of(
            *theme,
            symbols.deep_view(),
            s.deep_view(),
            area,
        ),
{
    let ghost before = out.deep_view();
    let share = padded_left(&s.cpu_text, 6);
    let cpu = gauge(theme, s.cpu_percent, cat3("cpu ", &share, "%"));
    put(out, Paint { area: rows_from(area, 0, 1), widget: Widget::Gauge(cpu) });
    let used = bytes(s.mem_bytes);
    let used = padded_left(&used, 6);
    let percent = match s.mem_percent() {
        Some(p) => p,
        None => Percent { bits: 0 },
    };
    let mem = gauge(theme, percent, cat2("mem ", &used));
    put(out, Paint { area: rows_from(area, 1, 1), widget: Widget::Gauge(mem) });
    put(out, paint_line(rows_from(area, 2, 1), line(io_line(theme, symbols, s))));
    assert(out.deep_view() =~= before + gauges_of(
        *theme,
        symbols.deep_view(),
        s.deep_view(),
        area,
    ));
}

// ---------------------------------------------------------------------------
// The pane
// ---------------------------------------------------------------------------

impl AppState {
    /// What the pane says. A stack header is selected rather than any one
    /// container, so it describes the stack instead of leaving the pane blank.
    #[verifier::opaque]
    pub open spec fn detail_lines(self, width: u16, now: int, cpu: Seq<char>) -> Seq<LineView> {
        let nothing = seq![nothing_line(self.theme)];
        match self.tab {
            Tab::Containers => if self.on_group() {
                match self.group() {
                    Some(g) => self.stack_lines(g, cpu),
                    None => nothing,
                }
            } else {
                match self.container() {
                    Some(c) => self.container_lines(c, width, now),
                    None => nothing,
                }
            },
            Tab::Images => match self.image() {
                Some(i) => self.image_lines(i, width, now),
                None => nothing,
            },
            Tab::Volumes => match self.volume() {
                Some(v) => self.volume_lines(v, width, now),
                None => nothing,
            },
            Tab::Networks => match self.network() {
                Some(n) => self.network_lines(n, now),
                None => nothing,
            },
        }
    }

    /// The reading that the gauges show. They only make sense for a running
    /// container we have a reading for.
    pub open spec fn gauged(self) -> Option<StatView> {
        match self.container() {
            Some(c) => if c.state.running() {
                self.stat(c.id)
            } else {
                None
            },
            None => None,
        }
    }

    /// The detail pane. The name always leads — it answers "what am I looking
    /// at?" — so it is peeled off the front and the gauges slot in underneath it.
    #[verifier::opaque]
    pub open spec fn detail(self, area: Rect, now: int, cpu: Seq<char>) -> Seq<PaintView> {
        let inner = area.inside();
        let framed = seq![
            block_in(
                area,
                pane_of(self.theme, title_of(self.theme, "details"@, None, false), false),
            ),
        ];
        if inner.width < 8 || inner.height == 0 {
            framed
        } else {
            let lines = self.detail_lines(inner.width, now, cpu);
            let gauges = match self.gauged() {
                Some(s) => if inner.height > 9 {
                    gauges_of(self.theme, self.symbols, s, rows_of(inner, 2, 3))
                } else {
                    Seq::empty()
                },
                None => Seq::empty(),
            };
            let above: u16 = if gauges.len() > 0 {
                5
            } else {
                2
            };
            framed + seq![line_in(rows_of(inner, 0, 1), lines[0])] + gauges + seq![
                PaintView {
                    area: rows_of(inner, above, minus(inner.height, above)),
                    widget: WidgetView::Text {
                        lines: lines.drop_first(),
                        wrap: Wrap::Keep,
                        style: plain(),
                    },
                },
            ]
        }
    }
}

fn lines_of(app: &App, width: u16, now: i64, cpu: &str) -> (out: Vec<Line>)
    ensures
        out.deep_view() == app.state().detail_lines(width, now as int, cpu@),
        out@.len() > 0,
{
    reveal(AppState::detail_lines);
    proof {
        reveal(AppState::stack_lines);
        reveal(AppState::container_lines);
        reveal(AppState::image_lines);
        reveal(AppState::volume_lines);
        reveal(AppState::network_lines);
    }
    let out = match app.tab {
        Tab::Containers => if app.on_group() {
            match app.current_group() {
                Some(g) => stack_lines(app, g, cpu),
                None => one_line(empty(app)),
            }
        } else {
            match app.selected_container() {
                Some(c) => container_lines(app, c, width, now),
                None => one_line(empty(app)),
            }
        },
        Tab::Images => match app.selected_image() {
            Some(i) => image_lines(app, i, width, now),
            None => one_line(empty(app)),
        },
        Tab::Volumes => match app.selected_volume() {
            Some(v) => volume_lines(app, v, width, now),
            None => one_line(empty(app)),
        },
        Tab::Networks => match app.selected_network() {
            Some(n) => network_lines(app, n, now),
            None => one_line(empty(app)),
        },
    };
    assert(out.deep_view().len() == out@.len());
    out
}

fn gauged(app: &App) -> (out: Option<&StatSample>)
    ensures
        out.deep_view() == app.state().gauged(),
{
    match app.selected_container() {
        Some(c) => if c.state.is_running() {
            app.latest_stat(&c.id)
        } else {
            None
        },
        None => None,
    }
}

/// Draw the detail pane. `now` is the time in seconds, and `cpu` what the
/// processor shares of the selected stack add up to.
pub fn draw(app: &App, area: Rect, now: i64, cpu: &str) -> (out: Vec<Paint>)
    ensures
        out.deep_view() == app.state().detail(area, now as int, cpu@),
{
    reveal(AppState::detail);
    reveal(part);
    let ghost v = app.state();
    let mut out = no_paint();
    let spans = title(app, "details", None, false);
    put(&mut out, paint_block(area, pane(app, spans, false)));
    let inner = area.inner();
    if inner.width < 8 || inner.height == 0 {
        return out;
    }
    let mut lines = lines_of(app, inner.width, now, cpu);
    let ghost all = lines.deep_view();
    assert(all[0] == lines@[0].deep_view());
    let first = lines.remove(0);
    assert(lines.deep_view() =~= all.drop_first());
    put(&mut out, paint_line(rows_from(inner, 0, 1), first));
    let mut above: u16 = 2;
    if let Some(s) = gauged(app) {
        if inner.height > 9 {
            push_gauges(&app.theme, &app.symbols, s, rows_from(inner, 2, 3), &mut out);
            above = 5;
        }
    }
    put(
        &mut out,
        Paint {
            area: rows_from(inner, above, sub_cells(inner.height, above)),
            widget: Widget::Text { lines, wrap: Wrap::Keep, style: Style::default() },
        },
    );
    assert(out.deep_view() =~= v.detail(area, now as int, cpu@));
    out
}

} // verus!
