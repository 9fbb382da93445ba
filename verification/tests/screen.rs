//! What is drawn, and where it can be clicked.

use dockyard::action::{commands, Key, KeyCode, KeyEvent};
use dockyard::app::mouse::{MouseButton, MouseEvent, MouseEventKind};
use dockyard::app::state::App;
use dockyard::app::{Mode, Splitter, Tab, ToastKind, LOG_DEBOUNCE};
use dockyard::docker::logs::{LogLine, Stream};
use dockyard::docker::model::{ContainerRow, Health, PortBinding, State};
use dockyard::docker::refresh::Snapshot;
use dockyard::docker::stats::{Percent, StatSample};
use dockyard::event::AppEvent;
use dockyard::geometry::Rect;
use dockyard::ui::frame::{draw_at, place};
use dockyard::ui::layout::{cut_in_four, cut_in_two, Constraint};
use dockyard::ui::rows::{columns, constraints};
use dockyard::ui::screen::{Ink, Line, Paint, Widget};
use dockyard::ui::tables::{list_at, record, record_at};
use dockyard::ui::theme::{asciify_key, Color, Glyphs, Palette, Style, Symbols, Theme};
use dockyard::ui::{centered, column_widths, draw, highlight, key_label};

fn area(width: u16, height: u16) -> Rect {
    Rect { x: 0, y: 0, width, height }
}

fn container(name: &str, state: State) -> ContainerRow {
    ContainerRow {
        id: format!("id-{name}"),
        name: name.into(),
        image: "nginx:latest".into(),
        image_id: "sha256:abc".into(),
        command: "run".into(),
        state,
        health: Health::Absent,
        status: "Up 2 days".into(),
        created: 0,
        ports: vec![],
        networks: vec![],
        mounts: vec![],
        stack: None,
        service: None,
    }
}

fn themed(theme: Theme) -> App {
    let mut app = App::new(theme);
    let snapshot = Snapshot {
        containers: vec![container("cache", State::Exited), container("web", State::Running)],
        images: vec![],
        volumes: vec![],
        networks: vec![],
    };
    app.on_app_event(AppEvent::Snapshot(snapshot), 1_000);
    app.toasts.clear();
    app
}

fn app() -> App {
    themed(Theme::new(Palette::TrueColor, Glyphs::Unicode))
}

fn text(line: &Line) -> String {
    line.spans.iter().map(|s| s.text.as_str()).collect()
}

/// Every line that was painted, in order.
fn lines(paints: &[Paint]) -> Vec<String> {
    let mut out = Vec::new();
    for p in paints {
        match &p.widget {
            Widget::Text { lines, .. } => out.extend(lines.iter().map(text)),
            Widget::Block(b) => out.extend(b.titles.iter().map(text)),
            Widget::Table(t) => {
                out.push(t.header.iter().map(text).collect::<Vec<_>>().join("|"));
                for r in &t.rows {
                    out.push(r.cells.iter().map(text).collect::<Vec<_>>().join("|"));
                }
            }
            Widget::Gauge(g) => out.push(g.label.text.clone()),
            _ => {}
        }
    }
    out
}

fn says(paints: &[Paint], what: &str) -> bool {
    lines(paints).iter().any(|l| l.contains(what))
}

fn press(app: &mut App, c: char) {
    app.on_key(KeyEvent::new(KeyCode::Char(c), false), 1_100);
}

// -- layout -------------------------------------------------------------------

#[test]
fn cutting_in_two_leaves_no_gap() {
    let (top, bottom) = cut_in_two(area(80, 30), true, 4, 10);
    assert_eq!(top, Rect { x: 0, y: 0, width: 80, height: 20 });
    assert_eq!(bottom, Rect { x: 0, y: 20, width: 80, height: 10 });
    let (left, right) = cut_in_two(Rect { x: 5, y: 2, width: 100, height: 9 }, false, 40, 38);
    assert_eq!(left, Rect { x: 5, y: 2, width: 62, height: 9 });
    assert_eq!(right, Rect { x: 67, y: 2, width: 38, height: 9 });
}

#[test]
fn cutting_in_two_meets_the_least_length_first() {
    for total in 0..20u16 {
        for length in 0..20u16 {
            let (top, bottom) = cut_in_two(area(9, total), true, 4, length);
            assert_eq!(top.height + bottom.height, total, "{total} {length}");
            assert_eq!(bottom.height, length.min(total.saturating_sub(4)), "{total} {length}");
            assert_eq!(bottom.y, top.height);
        }
    }
}

#[test]
fn cutting_in_four_frames_the_body() {
    for height in 8..60u16 {
        for banner in 0..2u16 {
            let (head, note, body, foot) = cut_in_four(area(30, height), banner);
            assert_eq!((head.y, head.height), (0, 3));
            assert_eq!((note.y, note.height), (3, banner));
            assert_eq!((body.y, body.height), (3 + banner, height - 4 - banner));
            assert_eq!((foot.y, foot.height), (height - 1, 1));
        }
    }
}

#[test]
fn columns_share_the_width() {
    let widths =
        column_widths(50, &vec![Constraint::Length(2), Constraint::Fill(1), Constraint::Length(8)], 1);
    assert_eq!(widths, vec![2, 38, 8]);
    for tab in Tab::all() {
        for w in [20, 60, 90, 140] {
            assert_eq!(columns(tab, w).len(), constraints(tab, w).len());
        }
    }
}

#[test]
fn boxes_are_centred_and_clamped() {
    assert_eq!(centered(area(80, 24), 40, 10), Rect { x: 20, y: 7, width: 40, height: 10 });
    assert_eq!(centered(area(10, 4), 40, 10), area(10, 4));
}

// -- a frame ------------------------------------------------------------------

#[test]
fn a_frame_shows_the_list_and_the_panes() {
    let mut app = app();
    let paints = draw(&mut app, area(120, 40), "");
    assert!(says(&paints, "Containers"));
    assert!(says(&paints, "cache"));
    assert!(says(&paints, "web"));
    assert!(says(&paints, "1/2 running"));
    assert_eq!(app.hits.tabs.len(), 4);
    assert!(app.hits.logs.is_some());
    assert!(app.hits.splitters.iter().any(|(_, s)| *s == Splitter::Logs));
}

#[test]
fn a_tiny_terminal_says_so() {
    let mut app = app();
    app.hits.logs = Some(area(1, 1));
    let paints = draw(&mut app, area(29, 40), "");
    assert_eq!(lines(&paints), vec!["terminal too small"]);
    assert!(app.hits.logs.is_none());
    assert!(app.hits.tabs.is_empty());
}

#[test]
fn nothing_of_the_last_frame_is_left() {
    let mut fresh = app();
    let mut stale = app();
    stale.hits.toasts = vec![(area(5, 5), 0)];
    stale.hits.confirm_yes = Some(area(3, 1));
    stale.hits.tabs = vec![(area(2, 2), Tab::Networks)];
    let a = draw(&mut fresh, area(100, 30), "");
    let b = draw(&mut stale, area(100, 30), "");
    assert_eq!(a, b);
    assert_eq!(fresh.hits.tabs, stale.hits.tabs);
    assert!(stale.hits.toasts.is_empty() && stale.hits.confirm_yes.is_none());
}

#[test]
fn an_unreachable_daemon_gets_a_banner() {
    let mut app = app();
    app.on_app_event(AppEvent::DaemonError("no such socket".into()), 1_100);
    app.toasts.clear();
    let places = place(&mut app, area(100, 30));
    assert_eq!(places.banner, Some(Rect { x: 0, y: 3, width: 100, height: 1 }));
    let paints = draw(&mut app, area(100, 30), "");
    assert!(says(&paints, "docker unreachable"));
    assert!(says(&paints, "no such socket"));
}

#[test]
fn panes_go_where_there_is_room() {
    let mut app = app();
    app.show_detail = true;
    app.show_logs = false;
    let wide = place(&mut app, area(120, 40));
    assert!(matches!(wide.detail, Some((_, true))));
    let narrow = place(&mut app, area(80, 40));
    assert!(matches!(narrow.detail, Some((_, false))));
    let tiny = place(&mut app, area(50, 40));
    assert!(tiny.detail.is_none());
    assert_eq!(tiny.list, Rect { x: 0, y: 3, width: 50, height: 36 });
    app.show_logs = true;
    assert!(place(&mut app, area(50, 40)).logs.is_some());
    app.set_tab(Tab::Images, 1_100);
    assert!(place(&mut app, area(50, 40)).logs.is_none());
}

#[test]
fn the_time_is_what_it_is_given() {
    let mut app = app();
    app.containers[0].created = 1_000;
    app.show_detail = true;
    let places = place(&mut app, area(120, 40));
    let room = places.list.inner().width;
    let widths = column_widths(room, &constraints(Tab::Containers, room), 1);
    let paints = draw_at(&mut app, area(120, 40), &places, &widths, 1_000 + 7_200, "");
    assert!(says(&paints, "2h ago"), "{:?}", lines(&paints));
}

// -- tables -------------------------------------------------------------------

#[test]
fn a_table_marks_its_selection_and_its_sort() {
    let mut app = app();
    press(&mut app, 'j');
    let room = area(100, 20);
    let asked = constraints(Tab::Containers, room.inner().width);
    let widths = column_widths(room.inner().width, &asked, 1);
    let paints = list_at(&app, room, &widths, 5_000);
    let table = paints
        .iter()
        .find_map(|p| match &p.widget {
            Widget::Table(t) => Some(t),
            _ => None,
        })
        .unwrap();
    assert_eq!(table.selected, Some(1));
    assert_eq!(table.rows.len(), 2);
    assert!(table.header.iter().any(|c| text(c).starts_with("NAME ")));
    assert!(text(&table.rows[0].cells[1]).contains("cache"));
}

#[test]
fn where_a_table_landed_is_recorded() {
    let mut app = app();
    let cols = columns(Tab::Containers, 98);
    let asked = constraints(Tab::Containers, 98);
    let at = Rect { x: 1, y: 4, width: 98, height: 10 };
    record(&mut app, at, &cols, &asked, 7);
    assert_eq!(app.hits.list_body, Some(Rect { x: 1, y: 5, width: 98, height: 9 }));
    assert_eq!(app.hits.list_offset, 7);
    assert!(!app.hits.list_headers.is_empty());
    let widths = vec![3u16; cols.len()];
    record_at(&mut app, at, &cols, &widths, 2);
    assert_eq!(app.hits.list_offset, 2);
}

#[test]
fn an_empty_list_says_why() {
    let mut app = App::new(Theme::new(Palette::TrueColor, Glyphs::Unicode));
    let paints = draw(&mut app, area(100, 30), "");
    assert!(!lines(&paints).is_empty());
    app.set_tab(Tab::Volumes, 1_000);
    let paints = draw(&mut app, area(100, 30), "");
    assert!(says(&paints, "volumes"));
}

// -- logs ---------------------------------------------------------------------

#[test]
fn log_colours_are_kept() {
    let mut app = app();
    app.on_tick(1_000 + LOG_DEBOUNCE);
    let generation = app.generation();
    let line = LogLine {
        timestamp: Some("10:00:00".into()),
        text: "\u{1b}[31mred\u{1b}[0m plain".into(),
        stream: Stream::Stdout,
    };
    app.on_app_event(AppEvent::LogLine { generation, line }, 2_000);
    let paints = draw(&mut app, area(100, 30), "");
    assert!(says(&paints, "red plain"));
    let coloured = paints.iter().any(|p| match &p.widget {
        Widget::Text { lines, .. } => lines.iter().any(|l| {
            l.spans.iter().any(|s| {
                s.text == "red"
                    && matches!(&s.ink, Ink::Ansi(style) if style.fg.as_deref() == Some("Red"))
            })
        }),
        _ => false,
    });
    assert!(coloured);
}

#[test]
fn wide_log_lines_are_measured_in_cells() {
    let mut app = app();
    app.on_tick(1_000 + LOG_DEBOUNCE);
    let generation = app.generation();
    for i in 0..40 {
        let line = LogLine { timestamp: None, text: format!("日本{i}"), stream: Stream::Stderr };
        app.on_app_event(AppEvent::LogLine { generation, line }, 2_000);
    }
    let paints = draw(&mut app, area(100, 40), "");
    assert!(says(&paints, "日本39"));
    // More lines than rows: there is something to scroll.
    assert!(paints.iter().any(|p| matches!(p.widget, Widget::Scrollbar { .. })));
}

// -- overlays -----------------------------------------------------------------

#[test]
fn the_help_has_a_line_for_every_command() {
    let mut app = app();
    press(&mut app, '?');
    let paints = draw(&mut app, area(120, 60), "");
    for spec in commands() {
        assert!(says(&paints, spec.name), "{}", spec.name);
    }
    assert!(says(&paints, "any key to close"));
    assert!(app.hits.modal.is_some());
}

#[test]
fn a_palette_entry_can_be_clicked() {
    let mut app = app();
    press(&mut app, ':');
    for c in "quit".chars() {
        press(&mut app, c);
    }
    let paints = draw(&mut app, area(100, 30), "");
    assert!(says(&paints, "quit"));
    let (row, _) = app.hits.palette_rows[0];
    let ev = MouseEvent {
        kind: MouseEventKind::Down(MouseButton::Left),
        column: row.x,
        row: row.y,
    };
    app.on_mouse(ev, 1_200);
    assert!(app.should_quit);
}

#[test]
fn the_palette_scrolls_to_its_cursor() {
    let mut app = app();
    press(&mut app, ':');
    for _ in 0..20 {
        app.on_key(KeyEvent::new(KeyCode::Down, false), 1_100);
    }
    draw(&mut app, area(100, 30), "");
    assert!(app.hits.palette_rows.iter().any(|(_, line)| *line == app.palette_cursor));
    assert_eq!(app.hits.palette_rows.len(), 12);
}

#[test]
fn a_question_has_two_buttons() {
    let mut app = app();
    press(&mut app, 'd');
    let paints = draw(&mut app, area(100, 30), "");
    assert!(says(&paints, "Remove container?"));
    let (yes, no) = (app.hits.confirm_yes.unwrap(), app.hits.confirm_no.unwrap());
    assert_eq!((yes.width, no.width), (10, 19));
    assert_eq!(no.x, yes.x + yes.width + 2);
    let ev = MouseEvent { kind: MouseEventKind::Down(MouseButton::Left), column: no.x, row: no.y };
    app.on_mouse(ev, 1_200);
    assert_eq!(app.mode, Mode::Normal);
    assert!(app.confirm.is_none());
}

/// How the span that says `what` is drawn.
fn look(paints: &[Paint], what: &str) -> Style {
    for p in paints {
        if let Widget::Text { lines, .. } = &p.widget {
            for s in lines.iter().flat_map(|l| &l.spans) {
                if let (true, Ink::Theme(style)) = (s.text.contains(what), &s.ink) {
                    return *style;
                }
            }
        }
    }
    panic!("{what} is not drawn")
}

#[test]
fn only_the_focused_button_is_filled() {
    for palette in [Palette::TrueColor, Palette::Ansi, Palette::Mono] {
        let theme = Theme::new(palette, Glyphs::Unicode);
        let mut app = themed(theme);
        press(&mut app, 'd');
        let paints = draw(&mut app, area(100, 30), "");
        assert_eq!(look(&paints, "yes"), theme.button_style(true, true));
        assert_eq!(look(&paints, "cancel"), theme.button_style(false, false));
        app.on_key(KeyEvent::new(KeyCode::Left, false), 1_200);
        let paints = draw(&mut app, area(100, 30), "");
        assert_eq!(look(&paints, "yes"), theme.button_style(false, true));
        assert_eq!(look(&paints, "cancel"), theme.button_style(true, false));
    }
    let theme = Theme::new(Palette::TrueColor, Glyphs::Unicode);
    assert_eq!(theme.button_style(true, true).bg, Some(theme.danger));
    assert_eq!(theme.button_style(true, false).bg, Some(theme.primary));
    assert_eq!(theme.button_style(false, true).bg, Some(theme.surface_alt));
}

#[test]
fn newer_messages_lie_below() {
    let mut app = app();
    app.toast(ToastKind::Info, "older".into(), 1_000);
    app.toast(ToastKind::Error, "newer".into(), 1_000);
    let paints = draw(&mut app, area(100, 30), "");
    assert!(says(&paints, "older") && says(&paints, "newer"));
    let rows = &app.hits.toasts;
    assert_eq!(rows.len(), 2);
    assert_eq!((rows[0].0.y, rows[1].0.y), (27, 28));
    assert_eq!(rows[1].0, Rect { x: 88, y: 28, width: 11, height: 1 });
}

#[test]
fn a_drawn_tab_can_be_clicked() {
    let mut app = app();
    draw(&mut app, area(120, 40), "");
    for (rect, tab) in app.hits.tabs.clone() {
        for x in rect.x..rect.x + rect.width {
            let ev = MouseEvent {
                kind: MouseEventKind::Down(MouseButton::Left),
                column: x,
                row: rect.y,
            };
            app.on_mouse(ev, 1_200);
            assert_eq!(app.tab, tab);
        }
    }
}

#[test]
fn a_running_container_has_gauges() {
    let mut app = app();
    app.show_detail = true;
    press(&mut app, 'j');
    let sample = StatSample {
        cpu_percent: Percent { bits: 25.0f64.to_bits() },
        cpu_text: "25.0".into(),
        mem_bytes: 1024,
        mem_limit: 4096,
        mem_share: Percent { bits: 25.0f64.to_bits() },
        net_rx: 0,
        net_tx: 0,
        block_read: 0,
        block_write: 0,
        pids: 3,
    };
    app.on_app_event(AppEvent::Stat { id: "id-web".into(), sample }, 1_100);
    let paints = draw(&mut app, area(140, 50), "");
    assert!(says(&paints, "25.0%"));
    assert!(paints.iter().any(|p| matches!(p.widget, Widget::Gauge(_))));
}

// -- appearance ---------------------------------------------------------------

fn all_ascii(paints: &[Paint]) {
    for l in lines(paints) {
        assert!(l.is_ascii(), "{l}");
    }
    for p in paints {
        match &p.widget {
            Widget::Block(b) => assert!(b.ascii),
            Widget::Gauge(g) => assert!(g.ascii),
            Widget::Scrollbar { ascii, .. } => assert!(ascii),
            _ => {}
        }
    }
}

#[test]
fn an_ascii_screen_is_ascii_throughout() {
    let mut app = themed(Theme::new(Palette::TrueColor, Glyphs::Ascii));
    all_ascii(&draw(&mut app, area(140, 50), ""));
    app.containers[1].name = "a-name-that-no-column-has-room-for".repeat(9);
    app.containers[1].mounts = vec!["/a/path/that/no/pane/has/room/for".repeat(9)];
    app.containers[1].ports = vec![PortBinding {
        ip: None,
        public: Some(8080),
        private: 80,
        proto: "tcp".into(),
    }];
    app.show_detail = true;
    press(&mut app, 'j');
    let sample = StatSample {
        cpu_percent: Percent { bits: 25f64.to_bits() },
        cpu_text: "25.0".into(),
        mem_bytes: 10_000,
        mem_limit: 20_000,
        mem_share: Percent { bits: 50f64.to_bits() },
        net_rx: 1_000,
        net_tx: 2_000,
        block_read: 3_000,
        block_write: 4_000,
        pids: 3,
    };
    app.on_app_event(AppEvent::Stat { id: app.containers[1].id.clone(), sample }, 1_100);
    let paints = draw(&mut app, area(140, 50), "");
    assert!(says(&paints, "~"), "{:?}", lines(&paints));
    assert!(says(&paints, "8080->80/tcp"), "{:?}", lines(&paints));
    assert!(says(&paints, "net v0.98kB ^1.95kB"), "{:?}", lines(&paints));
    all_ascii(&paints);
    app.on_app_event(AppEvent::DaemonError("no such host".repeat(40)), 1_100);
    app.on_key(KeyEvent::new(KeyCode::Char('r'), true), 1_100);
    let paints = draw(&mut app, area(140, 50), "");
    assert!(says(&paints, "docker unreachable"), "{:?}", lines(&paints));
    assert!(says(&paints, "refreshing..."), "{:?}", lines(&paints));
    all_ascii(&paints);
    app.logs.loading = true;
    let paints = draw(&mut app, area(140, 50), "");
    assert!(says(&paints, "attaching..."));
    all_ascii(&paints);
    press(&mut app, '/');
    press(&mut app, 'w');
    let paints = draw(&mut app, area(140, 50), "");
    assert!(says(&paints, "w_") && says(&paints, "enter keep   esc clear"));
    all_ascii(&paints);
    app.on_key(KeyEvent::new(KeyCode::Esc, false), 1_100);
    for c in ['?', ':', 'd'] {
        press(&mut app, c);
        all_ascii(&draw(&mut app, area(140, 50), ""));
        app.on_key(KeyEvent::new(KeyCode::Esc, false), 1_100);
    }
    all_ascii(&draw(&mut app, area(10, 5), ""));
}

#[test]
fn the_bar_says_what_grouping_will_do() {
    let mut app = app();
    assert!(says(&draw(&mut app, area(200, 50), ""), "z group "));
    press(&mut app, 'z');
    assert!(says(&draw(&mut app, area(200, 50), ""), "z ungroup "));
}

#[test]
fn ascii_mode_draws_ascii_marks() {
    let app = themed(Theme::new(Palette::TrueColor, Glyphs::Ascii));
    assert!(app.symbols.running.is_ascii() && app.symbols.check.is_ascii());
    for frame in 0..8 {
        assert!(app.symbols.spin(frame).is_ascii());
    }
    for spec in commands() {
        for key in &spec.keys {
            assert!(key_label(&app, key).is_ascii());
        }
    }
    assert_eq!(asciify_key("⏎"), "enter");
    assert_eq!(asciify_key("q"), "q");
    let fancy = themed(Theme::new(Palette::TrueColor, Glyphs::Unicode));
    assert_eq!(key_label(&fancy, &Key::code(KeyCode::Up)), "↑");
    assert_eq!(Symbols::new(Glyphs::Unicode).running, "●");
}

fn colourless(style: &Style) -> bool {
    let plain = |c: Option<Color>| c.is_none() || c == Some(Color::Reset);
    plain(style.fg) && plain(style.bg)
}

#[test]
fn without_colour_there_is_none() {
    let mut app = themed(Theme::new(Palette::Mono, Glyphs::Unicode));
    app.toast(ToastKind::Error, "oops".into(), 1_000);
    press(&mut app, 'd');
    let paints = draw(&mut app, area(120, 40), "");
    for p in &paints {
        match &p.widget {
            Widget::Text { lines, style, .. } => {
                assert!(colourless(style));
                for s in lines.iter().flat_map(|l| l.spans.iter()) {
                    if let Ink::Theme(style) = &s.ink {
                        assert!(colourless(style), "{:?}", s);
                    }
                }
            }
            Widget::Block(b) => assert!(colourless(&b.border) && colourless(&b.fill)),
            _ => {}
        }
    }
}

#[test]
fn a_match_is_picked_out() {
    let base = Style::default();
    let hit = Style::default().bold();
    let spans = highlight("postgres".into(), "st", base, hit);
    let parts: Vec<(&str, bool)> = spans
        .iter()
        .map(|s| (s.text.as_str(), matches!(&s.ink, Ink::Theme(x) if x.bold)))
        .collect();
    assert_eq!(parts, vec![("po", false), ("st", true), ("gres", false)]);
    assert_eq!(highlight("abc".into(), "", base, hit).len(), 1);
    assert_eq!(highlight("abc".into(), "zz", base, hit).len(), 1);
}

#[test]
fn a_single_stretching_column_takes_the_rest() {
    for width in 0..60u16 {
        let asked = vec![Constraint::Length(5), Constraint::Fill(3), Constraint::Length(7)];
        let widths = column_widths(width, &asked, 2);
        if width >= 16 {
            assert_eq!(widths, vec![5, width - 16, 7]);
        }
        assert_eq!(widths.len(), 3);
    }
    assert_eq!(column_widths(33, &vec![Constraint::Min(4)], 1), vec![33]);
    let huge = column_widths(65_535, &vec![Constraint::Length(60_000), Constraint::Fill(1)], 3);
    assert_eq!(huge, vec![60_000, 5_532]);
}

#[test]
fn laying_out_twice_moves_nothing() {
    let mut app = app();
    app.show_detail = true;
    app.log_rows = Some(200);
    app.detail_cols = Some(1);
    let first = place(&mut app, area(120, 40));
    let sizes = (app.log_rows, app.detail_cols, app.detail_rows);
    assert_eq!(place(&mut app, area(120, 40)), first);
    assert_eq!((app.log_rows, app.detail_cols, app.detail_rows), sizes);
    assert_eq!(sizes, (Some(30), Some(24), None));
}

fn nearest(num: i64, den: i64) -> i64 {
    (2 * num + den).div_euclid(2 * den)
}

#[test]
fn columns_that_stretch_by_weight_share_the_rest() {
    for w in 16..700u16 {
        let asked = constraints(Tab::Containers, w);
        let widths = column_widths(w, &asked, 1);
        let mut weights: i64 = 0;
        let mut rest: i64 = i64::from(w) - (asked.len() as i64 - 1);
        for c in &asked {
            match c {
                Constraint::Length(n) => rest -= i64::from(*n),
                Constraint::Fill(n) => weights += i64::from(*n),
                _ => unreachable!(),
            }
        }
        let mut at: i64 = 0;
        for (c, got) in asked.iter().zip(&widths) {
            let len = match c {
                Constraint::Fill(n) => i64::from(*n) * rest,
                Constraint::Length(n) => i64::from(*n) * weights,
                _ => unreachable!(),
            };
            assert_eq!(i64::from(*got), nearest(at + len, weights) - nearest(at, weights), "{w}");
            at += len + weights;
        }
        assert_eq!(at, (i64::from(w) + 1) * weights);
    }
    let asked = constraints(Tab::Containers, 120);
    assert_eq!(column_widths(120, &asked, 1), vec![2, 23, 31, 12, 7, 8, 31]);
}

#[test]
fn a_column_that_asks_for_a_share_gets_it() {
    for (tab, share, from) in [(Tab::Volumes, 30i64, 90u16), (Tab::Networks, 28, 84)] {
        for w in from..500 {
            let asked = constraints(tab, w);
            let widths = column_widths(w, &asked, 1);
            let n = asked.len();
            let last = i64::from(w) - nearest(100 * i64::from(w) - share * i64::from(w), 100);
            assert_eq!(i64::from(widths[n - 1]), last, "{tab:?} {w}");
            let mut taken: i64 = last + n as i64 - 1;
            for (i, c) in asked.iter().enumerate() {
                if let Constraint::Length(len) = c {
                    assert_eq!(widths[i], *len);
                    taken += i64::from(*len);
                }
            }
            assert_eq!(i64::from(widths[1]), i64::from(w) - taken);
        }
    }
}

#[test]
fn columns_without_enough_room_still_fill_it() {
    for (tab, roomy) in [(Tab::Images, 78u16), (Tab::Volumes, 57), (Tab::Networks, 45)] {
        for w in 26..roomy {
            let asked = constraints(tab, w);
            let widths = column_widths(w, &asked, 1);
            let sum: u16 = widths.iter().sum();
            assert_eq!(sum + asked.len() as u16 - 1, w, "{tab:?} {w} {widths:?}");
            for (c, got) in asked.iter().zip(&widths) {
                match c {
                    Constraint::Length(n) => assert!(got <= n, "{tab:?} {w} {widths:?}"),
                    Constraint::Min(n) => assert_eq!(got, n, "{tab:?} {w} {widths:?}"),
                    _ => unreachable!(),
                }
            }
        }
    }
}
