//! The panes describe what is selected, and the title bar what there is.

use vstd::prelude::*;

use crate::app::grouping::stack_key;
use crate::app::state::{running_in, AppState};
use crate::app::{GroupView, Tab};
use crate::docker::model::{
    or_empty, port_text_with, reference_text, service_text, ContainerView, Health, State,
};
use crate::docker::stats::{Percent, StatView};
use crate::geometry::Rect;
use crate::text::{dec, find_text, join, pad_left, pad_right};
use crate::ui::detail::{
    colored_line, field_line, gauge_hue, gauge_of, gauges_of, io_spans, memory_total, summary_of,
    users_text, yes_no_text,
};
use crate::ui::saying::said;
use crate::ui::screen::{sp, LineView, SpanView, WidgetView};
use crate::ui::tables::{dot_of, load_look};
use crate::ui::text_of;
use crate::ui::theme::{colored, SymbolsView, Theme};
use crate::util::format::{age_text, bytes_or_dash, bytes_text, short};

verus! {

broadcast use vstd::string::group_string_axioms;

/// Whether one of some lines says a text.
pub open spec fn tells(lines: Seq<LineView>, text: Seq<char>) -> bool {
    exists|i: int| 0 <= i < lines.len() && said(#[trigger] lines[i]) == text
}

/// A field and its value, as one text: the name of the field takes nine cells.
pub open spec fn field(label: Seq<char>, value: Seq<char>) -> Seq<char> {
    pad_right(label, 9) + value
}

proof fn one_says(s: SpanView)
    ensures
        text_of(seq![s]) == s.text,
{
    assert(seq![s].drop_last() =~= Seq::<SpanView>::empty());
    assert(text_of(Seq::<SpanView>::empty()) =~= Seq::<char>::empty());
    assert(text_of(seq![s]) =~= s.text);
}

proof fn two_say(a: SpanView, b: SpanView)
    ensures
        text_of(seq![a, b]) == a.text + b.text,
{
    one_says(a);
    assert(seq![a, b].drop_last() =~= seq![a]);
}

proof fn fields_say(theme: Theme)
    ensures
        forall|label: Seq<char>, value: Seq<char>|
            said(#[trigger] field_line(theme, label, value)) == field(label, value),
        forall|label: Seq<char>, value: Seq<char>, hue: crate::ui::theme::Color|
            said(#[trigger] colored_line(theme, label, value, hue)) == field(label, value),
{
    assert forall|label: Seq<char>, value: Seq<char>| said(
        #[trigger] field_line(theme, label, value),
    ) == field(label, value) by {
        two_say(sp(pad_right(label, 9), theme.faintest()), sp(value, colored(theme.text)));
    }
    assert forall|label: Seq<char>, value: Seq<char>, hue: crate::ui::theme::Color| said(
        #[trigger] colored_line(theme, label, value, hue),
    ) == field(label, value) by {
        two_say(
            sp(pad_right(label, 9), theme.faintest()),
            sp(value, crate::ui::theme::strong(hue)),
        );
    }
}

proof fn headings_say(theme: Theme)
    ensures
        forall|text: Seq<char>| said(#[trigger] crate::ui::detail::heading_line(theme, text)) == text,
{
    assert forall|text: Seq<char>| said(#[trigger] crate::ui::detail::heading_line(theme, text))
        == text by {
        one_says(sp(text, crate::ui::theme::strong(theme.primary)));
    }
}

proof fn bullets_say(v: AppState)
    ensures
        forall|text: Seq<char>, muted: bool|
            said(#[trigger] v.bullet_line(text, muted)) == v.symbols.bullet + " "@ + text,
{
    assert forall|text: Seq<char>, muted: bool| said(#[trigger] v.bullet_line(text, muted))
        == v.symbols.bullet + " "@ + text by {
        let line = v.bullet_line(text, muted);
        assert(line.spans =~= seq![line.spans[0], line.spans[1]]);
        two_say(line.spans[0], line.spans[1]);
    }
}

proof fn told_at(lines: Seq<LineView>, i: int)
    requires
        0 <= i < lines.len(),
    ensures
        tells(lines, said(lines[i])),
{
}

proof fn told_in_part(front: Seq<LineView>, part: Seq<LineView>, back: Seq<LineView>, text: Seq<char>)
    requires
        tells(part, text),
    ensures
        tells(front + part + back, text),
{
    let i = choose|i: int| 0 <= i < part.len() && said(#[trigger] part[i]) == text;
    assert((front + part + back)[front.len() + i] == part[i]);
}

// ---------------------------------------------------------------------------
// Details
// ---------------------------------------------------------------------------

/// The details of a container lead with its name, and give its id, image, state and age,
/// and its stack where it has one.
pub proof fn container_details(v: AppState, c: ContainerView, width: u16, now: int, cpu: Seq<char>)
    requires
        v.tab == Tab::Containers,
        v.container() == Some(c),
    ensures
        ({
            let lines = v.detail_lines(width, now, cpu);
            &&& said(lines[0]) == c.name
            &&& tells(lines, field("id"@, short(c.id)))
            &&& tells(lines, field("image"@, c.image))
            &&& c.image_id.len() > 0 ==> tells(lines, field("image id"@, short(c.image_id)))
            &&& tells(lines, field("state"@, c.status))
            &&& tells(lines, field("created"@, age_text(now, c.created as int)))
            &&& c.health == Health::Unhealthy ==> tells(lines, field("health"@, "unhealthy"@))
            &&& c.health == Health::Healthy ==> tells(lines, field("health"@, "healthy"@))
            &&& c.health == Health::Starting ==> tells(lines, field("health"@, "starting"@))
            &&& c.stack matches Some(stack) ==> c.service matches Some(service) ==> tells(
                lines,
                field("stack"@, stack + " / "@ + service),
            )
        }),
{
    reveal(AppState::detail_lines);
    reveal(AppState::container_lines);
    fields_say(v.theme);
    headings_say(v.theme);
    let lines = v.detail_lines(width, now, cpu);
    let fields = v.container_fields(c, now);
    let t = v.theme;
    let p: int = if c.image_id.len() > 0 {
        4
    } else {
        3
    };
    let q: int = if c.health == Health::Absent {
        p + 1
    } else {
        p + 2
    };
    assert(lines =~= fields + v.container_sections(c, width));
    assert(fields[0] == crate::ui::detail::heading_line(t, c.name));
    assert(fields[1] == field_line(t, "id"@, short(c.id)));
    assert(fields[2] == field_line(t, "image"@, c.image));
    assert(c.image_id.len() > 0 ==> fields[3] == field_line(t, "image id"@, short(c.image_id)));
    assert(fields[p] == field_line(t, "state"@, c.status));
    assert(fields[q] == field_line(t, "created"@, age_text(now, c.created as int)));
    told_at(lines, 1);
    told_at(lines, 2);
    told_at(lines, 3);
    told_at(lines, p);
    told_at(lines, q);
    if c.health != Health::Absent {
        assert(fields[p + 1] == crate::ui::detail::health_line(t, c.health)[0]);
        told_at(lines, p + 1);
    }
    if let Some(stack) = c.stack {
        if let Some(service) = c.service {
            assert(fields[q + 1] == field_line(t, "stack"@, stack + " / "@ + service));
            told_at(lines, q + 1);
        }
    }
}

/// The details of a container also list its ports and its networks, one by one.
pub proof fn container_details_list_what_it_has(
    v: AppState,
    c: ContainerView,
    width: u16,
    now: int,
    cpu: Seq<char>,
    k: int,
)
    requires
        v.tab == Tab::Containers,
        v.container() == Some(c),
    ensures
        0 <= k < c.ports.len() ==> tells(
            v.detail_lines(width, now, cpu),
            v.symbols.bullet + " "@ + port_text_with(c.ports[k], v.symbols.leads_to),
        ),
        0 <= k < c.networks.len() ==> tells(
            v.detail_lines(width, now, cpu),
            v.symbols.bullet + " "@ + c.networks[k],
        ),
        c.command.len() > 0 ==> tells(
            v.detail_lines(width, now, cpu),
            v.symbols.bullet + " "@ + c.command,
        ),
{
    reveal(AppState::detail_lines);
    reveal(AppState::container_lines);
    bullets_say(v);
    let lines = v.detail_lines(width, now, cpu);
    let fields = v.container_fields(c, now);
    let ports = v.section_of(
        "PORTS"@,
        if c.ports.len() == 0 {
            seq![v.bullet_line("none published"@, true)]
        } else {
            v.port_bullets(c.ports)
        },
    );
    let networks = v.section_if_any("NETWORKS"@, v.bullets(c.networks));
    let mounts = v.section_if_any("MOUNTS"@, v.cut_bullets(c.mounts, width));
    let command = if c.command.len() > 0 {
        v.section_of("COMMAND"@, seq![v.bullet_line(c.command, true)])
    } else {
        Seq::empty()
    };
    assert(lines =~= fields + ports + (networks + mounts + command));
    assert(lines =~= (fields + ports) + networks + (mounts + command));
    assert(lines =~= (fields + ports + networks + mounts) + command + Seq::empty());
    if 0 <= k < c.ports.len() {
        assert(ports[k + 2] == v.port_bullets(c.ports)[k]);
        told_at(ports, k + 2);
        told_in_part(
            fields,
            ports,
            networks + mounts + command,
            v.symbols.bullet + " "@ + port_text_with(c.ports[k], v.symbols.leads_to),
        );
    }
    if 0 <= k < c.networks.len() {
        assert(networks[k + 2] == v.bullets(c.networks)[k]);
        told_at(networks, k + 2);
        told_in_part(
            fields + ports,
            networks,
            mounts + command,
            v.symbols.bullet + " "@ + c.networks[k],
        );
    }
    if c.command.len() > 0 {
        assert(command[2] == v.bullet_line(c.command, true));
        told_at(command, 2);
        told_in_part(
            fields + ports + networks + mounts,
            command,
            Seq::empty(),
            v.symbols.bullet + " "@ + c.command,
        );
    }
}

/// The details of an image lead with what it goes by, and give its id, size, age and
/// users.
pub proof fn image_details(v: AppState, width: u16, now: int, cpu: Seq<char>)
    requires
        v.tab == Tab::Images,
        v.image() is Some,
    ensures
        ({
            let lines = v.detail_lines(width, now, cpu);
            let i = v.image()->0;
            &&& said(lines[0]) == reference_text(i)
            &&& tells(lines, field("id"@, short(i.id)))
            &&& i.size > 0 ==> tells(lines, field("size"@, bytes_text(i.size as nat)))
            &&& i.shared_size > 0 ==> tells(
                lines,
                field("shared"@, bytes_text(i.shared_size as nat)),
            )
            &&& tells(lines, field("created"@, age_text(now, i.created as int)))
            &&& i.containers > 0 ==> tells(
                lines,
                field("in use by"@, dec(i.containers as nat) + " container(s)"@),
            )
            &&& i.containers <= 0 ==> tells(lines, field("in use by"@, "nothing"@))
        }),
{
    reveal(AppState::detail_lines);
    reveal(AppState::image_lines);
    fields_say(v.theme);
    headings_say(v.theme);
    let lines = v.detail_lines(width, now, cpu);
    let i = v.image()->0;
    let t = v.theme;
    let p: int = if i.shared_size > 0 {
        4
    } else {
        3
    };
    assert(lines[0] == crate::ui::detail::heading_line(t, reference_text(i)));
    assert(lines[1] == field_line(t, "id"@, short(i.id)));
    assert(lines[2] == field_line(t, "size"@, bytes_or_dash(i.size as int)));
    assert(i.shared_size > 0 ==> lines[3] == field_line(
        t,
        "shared"@,
        bytes_or_dash(i.shared_size as int),
    ));
    assert(lines[p] == field_line(t, "created"@, age_text(now, i.created as int)));
    assert(lines[p + 1] == field_line(t, "in use by"@, users_text(i.containers as int)));
    told_at(lines, 1);
    told_at(lines, 2);
    told_at(lines, 3);
    told_at(lines, p);
    told_at(lines, p + 1);
}

/// The details of a volume lead with its name, and give its driver and its users, and
/// its size and its age where they are known.
pub proof fn volume_details(v: AppState, width: u16, now: int, cpu: Seq<char>)
    requires
        v.tab == Tab::Volumes,
        v.volume() is Some,
    ensures
        ({
            let lines = v.detail_lines(width, now, cpu);
            let vol = v.volume()->0;
            &&& said(lines[0]) == vol.name
            &&& tells(lines, field("driver"@, vol.driver))
            &&& vol.used_by > 0 ==> tells(
                lines,
                field("used by"@, dec(vol.used_by as nat) + " container(s)"@),
            )
            &&& vol.used_by == 0 ==> tells(lines, field("used by"@, "nothing"@))
            &&& vol.size matches Some(n) ==> n > 0 ==> tells(
                lines,
                field("size"@, bytes_text(n as nat)),
            )
            &&& vol.created matches Some(at) ==> tells(
                lines,
                field("created"@, age_text(now, at as int)),
            )
            &&& vol.compose_project matches Some(name) ==> tells(lines, field("compose"@, name))
        }),
{
    reveal(AppState::detail_lines);
    reveal(AppState::volume_lines);
    fields_say(v.theme);
    headings_say(v.theme);
    let lines = v.detail_lines(width, now, cpu);
    let vol = v.volume()->0;
    let t = v.theme;
    let p: int = if vol.size is Some {
        4
    } else {
        3
    };
    let q: int = if vol.created is Some {
        p + 1
    } else {
        p
    };
    assert(lines[0] == crate::ui::detail::heading_line(t, vol.name));
    assert(lines[1] == field_line(t, "driver"@, vol.driver));
    assert(lines[2] == field_line(t, "used by"@, users_text(vol.used_by as int)));
    told_at(lines, 1);
    told_at(lines, 2);
    if let Some(n) = vol.size {
        assert(lines[3] == field_line(t, "size"@, bytes_or_dash(n as int)));
        told_at(lines, 3);
    }
    if let Some(at) = vol.created {
        assert(lines[p] == field_line(t, "created"@, age_text(now, at as int)));
        told_at(lines, p);
    }
    if let Some(name) = vol.compose_project {
        assert(lines[q] == field_line(t, "compose"@, name));
        told_at(lines, q);
    }
}

/// The details of a network lead with its name, and give its id, driver, scope and users,
/// and whether it is internal and whether it has IPv6.
pub proof fn network_details(v: AppState, width: u16, now: int, cpu: Seq<char>)
    requires
        v.tab == Tab::Networks,
        v.network() is Some,
    ensures
        ({
            let lines = v.detail_lines(width, now, cpu);
            let n = v.network()->0;
            &&& said(lines[0]) == n.name
            &&& tells(lines, field("id"@, short(n.id)))
            &&& tells(lines, field("driver"@, n.driver))
            &&& tells(lines, field("scope"@, n.scope))
            &&& n.internal ==> tells(lines, field("internal"@, "yes"@))
            &&& !n.internal ==> tells(lines, field("internal"@, "no"@))
            &&& n.ipv6 ==> tells(lines, field("ipv6"@, "yes"@))
            &&& !n.ipv6 ==> tells(lines, field("ipv6"@, "no"@))
            &&& n.used_by > 0 ==> tells(
                lines,
                field("used by"@, dec(n.used_by as nat) + " container(s)"@),
            )
            &&& n.used_by == 0 ==> tells(lines, field("used by"@, "nothing"@))
        }),
{
    reveal(AppState::detail_lines);
    reveal(AppState::network_lines);
    fields_say(v.theme);
    headings_say(v.theme);
    let lines = v.detail_lines(width, now, cpu);
    let n = v.network()->0;
    let t = v.theme;
    assert(lines[0] == crate::ui::detail::heading_line(t, n.name));
    assert(lines[1] == field_line(t, "id"@, short(n.id)));
    assert(lines[2] == field_line(t, "driver"@, n.driver));
    assert(lines[3] == field_line(t, "scope"@, n.scope));
    assert(lines[4] == field_line(t, "internal"@, yes_no_text(n.internal)));
    assert(lines[5] == field_line(t, "ipv6"@, yes_no_text(n.ipv6)));
    assert(lines[6] == field_line(t, "used by"@, users_text(n.used_by as int)));
    told_at(lines, 1);
    told_at(lines, 2);
    told_at(lines, 3);
    told_at(lines, 4);
    told_at(lines, 5);
    told_at(lines, 6);
}

// ---------------------------------------------------------------------------
// Stacks
// ---------------------------------------------------------------------------

/// The details of a stack lead with its name, and give how many of how many run.
pub proof fn stack_details(v: AppState, g: GroupView, width: u16, now: int, cpu: Seq<char>)
    requires
        v.tab == Tab::Containers,
        v.on_group(),
        v.group() == Some(g),
    ensures
        ({
            let lines = v.detail_lines(width, now, cpu);
            &&& g.key.len() > 0 ==> said(lines[0]) == g.key
            &&& g.key.len() == 0 ==> said(lines[0]) == "standalone"@
            &&& tells(lines, field("running"@, dec(g.running) + "/"@ + dec(g.items)))
            &&& v.stack_stats(g.key).len() > 0 ==> tells(
                lines,
                field("memory"@, bytes_text(memory_total(v.stack_stats(g.key)) as nat)),
            )
            &&& v.stack_stats(g.key).len() > 0 ==> tells(lines, field("cpu"@, cpu + "%"@))
        }),
{
    reveal(AppState::detail_lines);
    reveal(AppState::stack_lines);
    fields_say(v.theme);
    headings_say(v.theme);
    let lines = v.detail_lines(width, now, cpu);
    let t = v.theme;
    assert(lines[0] == crate::ui::detail::heading_line(t, g.label()));
    assert(said(lines[2]) == field("running"@, dec(g.running) + "/"@ + dec(g.items)));
    told_at(lines, 2);
    if v.stack_stats(g.key).len() > 0 {
        assert(lines[3] == field_line(t, "cpu"@, cpu + "%"@));
        assert(lines[4] == field_line(
            t,
            "memory"@,
            bytes_text(memory_total(v.stack_stats(g.key)) as nat),
        ));
        told_at(lines, 3);
        told_at(lines, 4);
    }
}

/// The readings of a stack are those of its own containers, each once, and no others.
pub proof fn stacks_have_their_own_readings(v: AppState, key: Seq<char>, n: int, k: int)
    requires
        0 <= k < n <= v.containers.len(),
    ensures
        or_empty(v.containers[k].stack) == key ==> (v.stat(v.containers[k].id) matches Some(s)
            ==> v.member_stats(key, n).contains(s)),
        v.member_stats(key, n).len() == v.containers.take(n).filter(
            |c: ContainerView| or_empty(c.stack) == key && v.stat(c.id) is Some,
        ).len(),
{
    readings_are_counted(v, key, n);
    if let Some(s) = v.stat(v.containers[k].id) {
        if or_empty(v.containers[k].stack) == key {
            reading_is_there(v, key, n, k, s);
        }
    }
}

proof fn readings_are_counted(v: AppState, key: Seq<char>, n: int)
    requires
        0 <= n <= v.containers.len(),
    ensures
        v.member_stats(key, n).len() == v.containers.take(n).filter(
            |c: ContainerView| or_empty(c.stack) == key && v.stat(c.id) is Some,
        ).len(),
    decreases n,
{
    reveal(Seq::filter);
    if n > 0 {
        readings_are_counted(v, key, n - 1);
        assert(v.containers.take(n).drop_last() =~= v.containers.take(n - 1));
        assert(v.containers.take(n).last() == v.containers[n - 1]);
        assert(stack_key(v.containers[n - 1]) == or_empty(v.containers[n - 1].stack));
    }
}

proof fn reading_is_there(v: AppState, key: Seq<char>, n: int, k: int, s: StatView)
    requires
        0 <= k < n <= v.containers.len(),
        or_empty(v.containers[k].stack) == key,
        v.stat(v.containers[k].id) == Some(s),
    ensures
        v.member_stats(key, n).contains(s),
    decreases n,
{
    let low = v.member_stats(key, n - 1);
    let all = v.member_stats(key, n);
    if k < n - 1 {
        reading_is_there(v, key, n - 1, k, s);
        let i = choose|i: int| 0 <= i < low.len() && low[i] == s;
        assert(all[i] == s);
    } else {
        assert(all[low.len() as int] == s);
    }
}

/// The memory of a stack is what its readings add up to: one more adds what it has, as
/// far as that can be counted, and none have none.
pub proof fn memory_adds_up(stats: Seq<StatView>, s: StatView)
    ensures
        memory_total(Seq::empty()) == 0,
        memory_total(stats) + s.mem_bytes <= u64::MAX ==> memory_total(stats.push(s))
            == memory_total(stats) + s.mem_bytes,
        memory_total(stats) + s.mem_bytes > u64::MAX ==> memory_total(stats.push(s)) == u64::MAX,
{
    assert(stats.push(s).drop_last() =~= stats);
}

/// Each container of a stack has its line among the services, with what it is called and
/// how it is.
pub proof fn members_have_their_lines(v: AppState, key: Seq<char>, n: int, k: int)
    requires
        0 <= k < n <= v.containers.len(),
        or_empty(v.containers[k].stack) == key,
    ensures
        tells(
            v.member_lines(key, n),
            v.symbols.bullet + " "@ + (service_text(v.containers[k]) + "  "@ + summary_of(
                v.containers[k],
            )),
        ),
    decreases n,
{
    bullets_say(v);
    let low = v.member_lines(key, n - 1);
    let all = v.member_lines(key, n);
    let text = v.symbols.bullet + " "@ + (service_text(v.containers[k]) + "  "@ + summary_of(
        v.containers[k],
    ));
    if k < n - 1 {
        members_have_their_lines(v, key, n - 1, k);
        let i = choose|i: int| 0 <= i < low.len() && said(#[trigger] low[i]) == text;
        assert(all[i] == low[i]);
    } else {
        assert(said(all[low.len() as int]) == text);
    }
}

// ---------------------------------------------------------------------------
// Gauges and figures
// ---------------------------------------------------------------------------

/// The first gauge is the processor's and the second the memory's, each with the figure
/// that it stands for beside it.
pub proof fn gauges_show_the_reading(theme: Theme, symbols: SymbolsView, s: StatView, area: Rect)
    ensures
        gauges_of(theme, symbols, s, area).len() == 3,
        gauges_of(theme, symbols, s, area)[0].widget matches WidgetView::Gauge(g) && g.percent
            == s.cpu_percent && g.label.text == "cpu "@ + pad_left(s.cpu_text, 6) + "%"@,
        gauges_of(theme, symbols, s, area)[1].widget matches WidgetView::Gauge(g) && (s.mem_limit
            > 0 ==> g.percent == s.mem_share) && g.label.text == "mem "@ + pad_left(
            bytes_text(s.mem_bytes as nat),
            6,
        ),
{
}

/// The line below the gauges gives the limit where there is one, what was received and
/// sent, what was read and written, and the processes, in this order.
pub proof fn traffic_is_spelled_out(theme: Theme, symbols: SymbolsView, s: StatView)
    requires
        s.mem_limit == 0,
    ensures
        text_of(io_spans(theme, symbols, s)) == "net "@ + (symbols.received + bytes_text(
            s.net_rx as nat,
        ) + " "@) + (symbols.sent + bytes_text(s.net_tx as nat)) + "   disk "@ + (symbols.received
            + bytes_text(s.block_read as nat) + " "@) + (symbols.sent + bytes_text(
            s.block_write as nat,
        )) + "   pids "@ + dec(s.pids as nat),
{
    let all = io_spans(theme, symbols, s);
    assert(all.len() == 8);
    steps(all, 8);
    assert(all.take(8) =~= all);
    steps(all, 7);
    steps(all, 6);
    steps(all, 5);
    steps(all, 4);
    steps(all, 3);
    steps(all, 2);
    steps(all, 1);
    assert(all.take(0) =~= Seq::<SpanView>::empty());
    assert(text_of(Seq::<SpanView>::empty()) =~= Seq::<char>::empty());
    assert(text_of(all.take(1)) =~= "net "@);
}

proof fn steps(all: Seq<SpanView>, n: int)
    requires
        0 < n <= all.len(),
    ensures
        text_of(all.take(n)) == text_of(all.take(n - 1)) + all[n - 1].text,
{
    assert(all.take(n).drop_last() =~= all.take(n - 1));
}

/// Loads are alarming from eighty percent on and worth a look from fifty on, in the list
/// as in the gauges. (`0x4054_0000_0000_0000` is how 80.0 is held, and
/// `0x4049_0000_0000_0000` how 50.0 is.)
pub proof fn loads_are_colored_by_how_high_they_are(theme: Theme, p: Percent)
    ensures
        p.bits >= 0x4054_0000_0000_0000u64 ==> load_look(theme, Some(p)) == colored(theme.danger)
            && gauge_hue(theme, p) == theme.danger,
        0x4049_0000_0000_0000u64 <= p.bits < 0x4054_0000_0000_0000u64 ==> load_look(theme, Some(p))
            == colored(theme.warn) && gauge_hue(theme, p) == theme.warn,
        p.bits < 0x4049_0000_0000_0000u64 ==> gauge_hue(theme, p) == theme.success,
        gauge_of(theme, p, Seq::empty()).filled == colored(gauge_hue(theme, p)),
{
}

/// A container's glyph tells its health while it runs, and its state when it does not.
pub proof fn glyphs_tell_the_state(theme: Theme, sym: SymbolsView, state: State, health: Health)
    ensures
        state.running() && health == Health::Unhealthy ==> dot_of(theme, sym, state, health) == sp(
            sym.unhealthy,
            colored(theme.danger),
        ),
        state.running() && (health == Health::Healthy || health == Health::Absent) ==> dot_of(
            theme,
            sym,
            state,
            health,
        ) == sp(sym.running, colored(theme.success)),
        state == State::Exited ==> dot_of(theme, sym, state, health) == sp(
            sym.stopped,
            colored(theme.faint),
        ),
        state == State::Paused ==> dot_of(theme, sym, state, health) == sp(
            sym.paused,
            colored(theme.warn),
        ),
        state == State::Dead ==> dot_of(theme, sym, state, health) == sp(
            sym.dead,
            colored(theme.danger),
        ),
{
}

// ---------------------------------------------------------------------------
// The title bar and the log pane's title
// ---------------------------------------------------------------------------

proof fn running_are_counted(rows: Seq<ContainerView>, n: int)
    requires
        0 <= n <= rows.len(),
    ensures
        running_in(rows, n) == rows.take(n).filter(
            |c: ContainerView| c.state == State::Running || c.state == State::Restarting,
        ).len(),
    decreases n,
{
    reveal(Seq::filter);
    if n > 0 {
        running_are_counted(rows, n - 1);
        assert(rows.take(n).drop_last() =~= rows.take(n - 1));
        assert(rows.take(n).last() == rows[n - 1]);
    }
}

/// The title bar counts the containers that run, out of all there are.
pub proof fn the_summary_counts_what_runs(v: AppState)
    requires
        v.containers.len() > 0,
        v.daemon.version.len() > 0,
    ensures
        v.summary_text() == "docker "@ + v.daemon.version + "  "@ + v.symbols.bullet + "  "@ + (dec(
            v.containers.filter(
                |c: ContainerView| c.state == State::Running || c.state == State::Restarting,
            ).len(),
        ) + "/"@ + dec(v.containers.len()) + " running"@),
{
    running_are_counted(v.containers, v.containers.len() as int);
    assert(v.containers.take(v.containers.len() as int) =~= v.containers);
}

/// Each tab of the strip has its name and how much it lists; the one on screen, and no
/// other, is marked.
pub proof fn tabs_say_what_they_hold(v: AppState, tab: Tab)
    ensures
        text_of(v.tab_spans(tab)) == " "@ + (if tab == v.tab {
            v.symbols.arrow_right
        } else {
            " "@
        }) + " "@ + v.tab_icon(tab) + tab.title_text() + (" "@ + dec(v.count(tab))) + "  "@,
        v.count(Tab::Containers) == v.containers.len(),
        v.count(Tab::Images) == v.images.len(),
        v.count(Tab::Volumes) == v.volumes.len(),
        v.count(Tab::Networks) == v.networks.len(),
{
    let all = v.tab_spans(tab);
    assert(all.take(0) =~= Seq::<SpanView>::empty());
    assert(text_of(Seq::<SpanView>::empty()) =~= Seq::<char>::empty());
    steps(all, 1);
    steps(all, 2);
    steps(all, 3);
    steps(all, 4);
    steps(all, 5);
    steps(all, 6);
    assert(text_of(all.take(1)) =~= " "@);
    let front = text_of(all.take(3));
    if v.tab_icon(tab).len() > 0 {
        steps(all, 7);
        assert(all.take(7) =~= all);
    } else {
        assert(front + v.tab_icon(tab) =~= front);
        assert(all.take(6) =~= all);
    }
}

/// The title of the log pane has the container's name, and says whether the pane follows
/// or how far it is scrolled back.
pub proof fn the_log_title_says_where_it_is(v: AppState, name: Seq<char>)
    ensures
        ({
            let dot = "  "@ + v.symbols.bullet + "  "@;
            let place = if v.logs.follow {
                "following"@
            } else {
                "paused "@ + dec(v.logs.scroll) + " lines back"@
            };
            &&& !v.logs.wrap ==> v.log_status(name) == name + dot + place
            &&& v.logs.wrap ==> v.log_status(name) == name + dot + place + dot + "wrap"@
            &&& v.container() matches Some(c) ==> v.log_name() == c.name
        }),
{
    let dot = "  "@ + v.symbols.bullet + "  "@;
    let place = if v.logs.follow {
        "following"@
    } else {
        "paused "@ + dec(v.logs.scroll) + " lines back"@
    };
    let two = seq![name, place];
    assert(two.drop_last() =~= seq![name]);
    assert(join(seq![name], dot) == name);
    assert(join(two, dot) == name + dot + place);
    let three = two.push("wrap"@);
    assert(three.drop_last() =~= two);
    assert(join(three, dot) == join(two, dot) + dot + "wrap"@);
}

/// The pane leads with the name and gives everything else below it; the gauges of a
/// container that runs come in between, where a reading is there and so is the room.
pub proof fn details_lead_with_the_name(v: AppState, area: Rect, now: int, cpu: Seq<char>)
    requires
        area.width >= 10,
        area.height >= 3,
    ensures
        ({
            let paints = v.detail(area, now, cpu);
            let lines = v.detail_lines(area.inside().width, now, cpu);
            &&& paints[0].area == area
            &&& paints[1].area.y == area.inside().y
            &&& paints[1].widget matches WidgetView::Text { lines: first, .. } && first == seq![
                lines[0],
            ]
            &&& paints.last().widget matches WidgetView::Text { lines: rest, .. } && rest
                == lines.drop_first()
            &&& area.height > 11 ==> (v.container() matches Some(c) ==> c.state.running() ==> (
            v.stat(c.id) matches Some(s) ==> paints.len() == 6 && (
            paints[2].widget matches WidgetView::Gauge(g) && g.percent == s.cpu_percent)))
            &&& v.container() is None ==> paints.len() == 3
        }),
{
    reveal(AppState::detail);
    let paints = v.detail(area, now, cpu);
    let inner = area.inside();
    if let Some(s) = v.gauged() {
        if inner.height > 9 {
            assert(paints[2] == gauges_of(
                v.theme,
                v.symbols,
                s,
                crate::ui::layout::rows_of(inner, 2, 3),
            )[0]);
        }
    }
}

proof fn parenthesis_is_found(front: Seq<char>, back: Seq<char>, from: int)
    requires
        0 <= from <= front.len(),
        !front.contains('('),
    ensures
        find_text(front + " ("@ + back, " ("@, from) == front.len(),
        find_text(front, " ("@, from) == front.len(),
    decreases front.len() - from,
{
    reveal_strlit(" (");
    let all = front + " ("@ + back;
    if from < front.len() {
        parenthesis_is_found(front, back, from + 1);
        if from + 2 <= all.len() && all.subrange(from, from + 2) == " ("@ {
            assert(all.subrange(from, from + 2)[1] == all[from + 1]);
            if from + 1 < front.len() {
                assert(front.contains(front[from + 1]));
            }
        }
        if from + 2 <= front.len() && front.subrange(from, from + 2) == " ("@ {
            assert(front.subrange(from, from + 2)[1] == front[from + 1]);
            assert(front.contains(front[from + 1]));
        }
    } else {
        assert(all.subrange(from, from + 2) =~= " ("@);
    }
}

/// The services of a stack are told with their status, without what stands in
/// parentheses, and with their state where there is no status.
pub proof fn services_are_told_with_their_status(c: ContainerView, front: Seq<char>, back: Seq<char>)
    requires
        front.len() > 0,
        !front.contains('('),
    ensures
        c.status == front + " ("@ + back ==> summary_of(c) == front,
        c.status == front ==> summary_of(c) == front,
        c.status.len() == 0 ==> summary_of(c) == c.state.label_text(),
        c.service is None ==> service_text(c) == c.name,
        c.service matches Some(s) ==> service_text(c) == s,
{
    parenthesis_is_found(front, back, 0);
    assert((front + " ("@ + back).take(front.len() as int) =~= front);
    assert(front.take(front.len() as int) =~= front);
}

} // verus!
