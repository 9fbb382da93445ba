//! The application as a whole: events, keys and the mouse.

use dockyard::action::{command_at, Command, KeyCode, KeyEvent, KeyEventKind};
use dockyard::app::mouse::{MouseButton, MouseEvent, MouseEventKind};
use dockyard::app::palette::palette_lines;
use dockyard::app::state::{App, Effect};
use dockyard::app::{
    Focus, Mode, Sort, Splitter, Tab, ToastKind, ViewRow, DOUBLE_CLICK, LOG_DEBOUNCE, TOAST_TTL,
};
use dockyard::docker::actions::Job;
use dockyard::docker::logs::{LogLine, Stream};
use dockyard::docker::model::{
    ContainerRow, DaemonInfo, Health, ImageRow, NetworkRow, State, VolumeRow,
};
use dockyard::docker::refresh::Snapshot;
use dockyard::docker::stats::{Percent, StatSample};
use dockyard::event::AppEvent;
use dockyard::geometry::{Position, Rect};
use dockyard::ui::theme::{Glyphs, Palette, Theme};

fn container(name: &str, stack: Option<&str>, state: State) -> ContainerRow {
    ContainerRow {
        id: format!("id-{name}"),
        name: name.into(),
        image: "img".into(),
        image_id: String::new(),
        command: String::new(),
        state,
        health: Health::Absent,
        status: String::new(),
        created: 0,
        ports: vec![],
        networks: vec![],
        mounts: vec![],
        stack: stack.map(str::to_string),
        service: None,
    }
}

fn image(name: &str, size: i64, created: i64) -> ImageRow {
    ImageRow {
        id: format!("sha256:{name}"),
        repository: name.into(),
        tag: "latest".into(),
        all_tags: vec![],
        size,
        shared_size: 0,
        created,
        containers: 0,
        dangling: false,
    }
}

fn snapshot() -> Snapshot {
    Snapshot {
        containers: vec![
            container("web", Some("shop"), State::Running),
            container("db", Some("shop"), State::Running),
            container("cache", None, State::Exited),
        ],
        images: vec![image("nginx", 10, 5), image("redis", 30, 9)],
        volumes: vec![VolumeRow {
            name: "data".into(),
            driver: "local".into(),
            mountpoint: String::new(),
            created: None,
            size: None,
            compose_project: None,
            used_by: 0,
        }],
        networks: vec![NetworkRow {
            id: "n1".into(),
            name: "bridge".into(),
            driver: "bridge".into(),
            scope: "local".into(),
            subnets: vec![],
            internal: false,
            ipv6: false,
            created: None,
            compose_project: None,
            used_by: 0,
        }],
    }
}

fn app() -> App {
    let mut app = App::new(Theme::new(Palette::TrueColor, Glyphs::Unicode));
    app.on_app_event(AppEvent::Snapshot(snapshot()), 1_000);
    app
}

fn press(app: &mut App, c: char, now: u64) {
    app.on_key(KeyEvent::new(KeyCode::Char(c), false), now);
}

fn names(app: &App) -> Vec<String> {
    app.view()
        .iter()
        .map(|r| match r {
            ViewRow::Group(g) => format!("[{}]", app.groups[*g].label()),
            ViewRow::Item(i) => match app.tab {
                Tab::Containers => app.containers[*i].name.clone(),
                Tab::Images => app.images[*i].repository.clone(),
                Tab::Volumes => app.volumes[*i].name.clone(),
                Tab::Networks => app.networks[*i].name.clone(),
            },
        })
        .collect()
}

fn sample(cpu: f64) -> StatSample {
    StatSample {
        cpu_percent: Percent { bits: cpu.to_bits() },
        cpu_text: format!("{cpu:.1}"),
        mem_bytes: 1,
        mem_limit: 2,
        mem_share: Percent { bits: 50.0f64.to_bits() },
        net_rx: 0,
        net_tx: 0,
        block_read: 0,
        block_write: 0,
        pids: 1,
    }
}

// -- lists --------------------------------------------------------------------

#[test]
fn a_snapshot_fills_the_lists_and_selects_a_row() {
    let app = app();
    assert_eq!(names(&app), vec!["cache", "db", "web"]);
    assert_eq!(app.cursor(), Some(0));
    assert_eq!(app.selected_container().map(|c| c.name.as_str()), Some("cache"));
    assert_eq!((app.total_rows(), app.running_count()), (3, 2));
    assert!(app.dirty);
}

#[test]
fn the_selection_survives_a_refresh() {
    let mut app = app();
    press(&mut app, 'j', 1_100);
    assert_eq!(app.selected_container().map(|c| c.name.as_str()), Some("db"));
    let mut next = snapshot();
    next.containers.insert(0, container("alpha", None, State::Running));
    app.on_app_event(AppEvent::Snapshot(next), 1_200);
    assert_eq!(app.selected_container().map(|c| c.name.as_str()), Some("db"));
    // When the row is gone, something else is selected.
    let mut gone = snapshot();
    gone.containers.remove(1);
    app.on_app_event(AppEvent::Snapshot(gone), 1_300);
    assert!(app.cursor().is_some());
}

#[test]
fn stopped_containers_can_be_left_out() {
    let mut app = app();
    press(&mut app, 'a', 1_100);
    assert!(!app.show_stopped);
    assert_eq!(names(&app), vec!["db", "web"]);
    press(&mut app, 'a', 1_200);
    assert_eq!(names(&app), vec!["cache", "db", "web"]);
}

#[test]
fn sorting_cycles_and_reverses() {
    let mut app = app();
    app.set_tab(Tab::Images, 1_100);
    assert_eq!(names(&app), vec!["nginx", "redis"]);
    press(&mut app, 'O', 1_200);
    assert_eq!(names(&app), vec!["redis", "nginx"]);
    press(&mut app, 'O', 1_250);
    app.set_sort(Sort::Size);
    assert_eq!(app.sort(), Sort::Size);
    assert!(app.sort_descending());
    assert_eq!(names(&app), vec!["redis", "nginx"]);
    // Picking the same column again reverses it.
    app.set_sort(Sort::Size);
    assert!(app.sort_reversed());
    assert_eq!(names(&app), vec!["nginx", "redis"]);
    // A column that this tab does not have changes nothing.
    app.set_sort(Sort::Cpu);
    assert_eq!(app.sort(), Sort::Size);
}

#[test]
fn busy_containers_come_first_when_sorted_by_cpu() {
    let mut app = app();
    app.on_app_event(AppEvent::Stat { id: "id-web".into(), sample: sample(80.0) }, 1_100);
    app.on_app_event(AppEvent::Stat { id: "id-db".into(), sample: sample(5.0) }, 1_100);
    app.set_sort(Sort::Cpu);
    assert_eq!(names(&app), vec!["web", "db", "cache"]);
    assert_eq!(app.latest_stat("id-web").map(|s| s.cpu_text.as_str()), Some("80.0"));
}

#[test]
fn filtering_keeps_what_matches() {
    let mut app = app();
    press(&mut app, '/', 1_100);
    assert_eq!(app.mode, Mode::Filter);
    press(&mut app, 'd', 1_200);
    press(&mut app, 'b', 1_300);
    // The other letters of the id make "web" a match too, only a worse one.
    assert_eq!(names(&app), vec!["db", "web"]);
    app.on_key(KeyEvent::new(KeyCode::Backspace, false), 1_310);
    app.on_key(KeyEvent::new(KeyCode::Backspace, false), 1_320);
    for c in "cach".chars() {
        press(&mut app, c, 1_350);
    }
    assert_eq!(names(&app), vec!["cache"]);
    app.on_key(KeyEvent::new(KeyCode::Enter, false), 1_400);
    assert_eq!(app.mode, Mode::Normal);
    assert_eq!(names(&app), vec!["cache"]);
    app.on_key(KeyEvent::new(KeyCode::Esc, false), 1_500);
    assert_eq!(names(&app).len(), 3);
}

#[test]
fn grouping_gathers_and_folds() {
    let mut app = app();
    press(&mut app, 'z', 1_100);
    assert_eq!(names(&app), vec!["[shop]", "db", "web", "[standalone]", "cache"]);
    // The selection stays on the row it was on.
    assert_eq!(app.selected_container().map(|c| c.name.as_str()), Some("cache"));
    app.set_cursor(0, 1_200);
    assert!(app.on_group());
    assert_eq!(app.current_group().map(|g| g.items), Some(2));
    // A header is no container: nothing to act on.
    assert!(app.selected_container().is_none());
    assert!(app.build_job(Command::Stop).is_none());
    press(&mut app, ' ', 1_300);
    assert_eq!(names(&app), vec!["[shop]", "[standalone]", "cache"]);
    press(&mut app, 'Z', 1_400);
    assert_eq!(names(&app), vec!["[shop]", "[standalone]"]);
    assert_eq!(app.visible_items(), 0);
    press(&mut app, 'Z', 1_500);
    assert_eq!(names(&app).len(), 5);
}

#[test]
fn tabs_go_round() {
    let mut app = app();
    for tab in [Tab::Images, Tab::Volumes, Tab::Networks, Tab::Containers] {
        app.on_key(KeyEvent::new(KeyCode::Tab, false), 1_100);
        assert_eq!(app.tab, tab);
    }
    app.on_key(KeyEvent::new(KeyCode::BackTab, false), 1_200);
    assert_eq!(app.tab, Tab::Networks);
    press(&mut app, '2', 1_300);
    assert_eq!(app.tab, Tab::Images);
    assert_eq!(app.selected_image().map(|i| i.reference()), Some("nginx:latest".to_string()));
}

// -- jobs ---------------------------------------------------------------------

#[test]
fn destructive_jobs_wait_for_an_answer() {
    let mut app = app();
    press(&mut app, 'd', 1_100);
    assert_eq!(app.mode, Mode::Confirm);
    assert!(matches!(app.confirm, Some(Job::RemoveContainer { .. })));
    assert!(!app.effects.iter().any(|e| matches!(e, Effect::StartJob(_))));
    press(&mut app, 'n', 1_200);
    assert_eq!(app.mode, Mode::Normal);
    assert!(app.confirm.is_none());
    assert!(!app.effects.iter().any(|e| matches!(e, Effect::StartJob(_))));
    press(&mut app, 'd', 1_300);
    press(&mut app, 'y', 1_400);
    assert!(app.effects.iter().any(|e| matches!(e, Effect::StartJob(Job::RemoveContainer { .. }))));
    assert_eq!(app.pending.get("id-cache"), Some(&"removing"));
}

#[test]
fn a_harmless_job_starts_at_once() {
    let mut app = app();
    press(&mut app, 'u', 1_100);
    assert!(app.effects.iter().any(
        |e| matches!(e, Effect::StartJob(Job::Start { id, .. }) if id == "id-cache")
    ));
    let job = Job::Start { id: "id-cache".into(), name: "cache".into() };
    app.on_app_event(AppEvent::JobDone { job, result: Ok("started cache".into()) }, 1_200);
    assert!(app.pending.get("id-cache").is_none());
    assert_eq!(app.toasts.last().map(|t| (t.kind, t.text.as_str())), Some((ToastKind::Success, "started cache")));
    assert!(app.effects.contains(&Effect::Refresh));
}

#[test]
fn pruning_concerns_the_tab() {
    let mut app = app();
    assert!(matches!(app.build_job(Command::Prune), Some(Job::PruneContainers)));
    app.set_tab(Tab::Volumes, 1_100);
    assert!(matches!(app.build_job(Command::Prune), Some(Job::PruneVolumes)));
    assert!(matches!(app.build_job(Command::Remove), Some(Job::RemoveVolume { .. })));
    // There is nothing to start in a volume.
    assert!(app.build_job(Command::Start).is_none());
}

#[test]
fn a_shell_needs_a_running_container() {
    let mut app = app();
    press(&mut app, 's', 1_100);
    assert!(app.exec_request.is_none());
    assert!(!app.toasts.is_empty());
    press(&mut app, 'j', 1_200);
    press(&mut app, 's', 1_300);
    assert_eq!(app.exec_request, Some(("id-db".to_string(), "db".to_string())));
}

#[test]
fn copying_asks_for_the_clipboard() {
    let mut app = app();
    app.effects.clear();
    press(&mut app, 'y', 1_100);
    assert!(app.effects.iter().any(|e| matches!(e, Effect::Copy(_))));
    app.on_copied("id-cache", Ok(()), 1_200);
    assert_eq!(app.toasts.last().map(|t| t.kind), Some(ToastKind::Success));
    app.on_copied("id-cache", Err("no terminal".into()), 1_300);
    assert_eq!(app.toasts.last().map(|t| t.kind), Some(ToastKind::Error));
}

// -- logs ---------------------------------------------------------------------

fn attached(app: &mut App) -> u64 {
    app.on_tick(1_000 + LOG_DEBOUNCE);
    app.generation()
}

fn line(text: &str) -> LogLine {
    LogLine { timestamp: None, text: text.into(), stream: Stream::Stdout }
}

#[test]
fn attaching_waits_out_the_debounce() {
    let mut app = app();
    app.effects.clear();
    app.on_tick(1_000 + LOG_DEBOUNCE - 1);
    assert!(!app.effects.iter().any(|e| matches!(e, Effect::AttachLogs { .. })));
    app.on_tick(1_000 + LOG_DEBOUNCE);
    assert!(app.effects.iter().any(
        |e| matches!(e, Effect::AttachLogs { id, .. } if id == "id-cache")
    ));
}

#[test]
fn lines_of_an_old_stream_are_dropped() {
    let mut app = app();
    let generation = attached(&mut app);
    app.on_app_event(AppEvent::LogLine { generation, line: line("new") }, 2_000);
    assert_eq!(app.logs.lines.len(), 1);
    app.on_app_event(AppEvent::LogLine { generation: generation - 1, line: line("old") }, 2_100);
    assert_eq!(app.logs.lines.len(), 1);
    // Moving on makes the stream stale.
    press(&mut app, 'j', 2_200);
    app.on_app_event(AppEvent::LogLine { generation, line: line("late") }, 2_300);
    assert!(app.logs.lines.is_empty());
}

#[test]
fn a_scrolled_view_stays_where_it_is() {
    let mut app = app();
    let generation = attached(&mut app);
    for i in 0..10 {
        app.on_app_event(
            AppEvent::LogLine { generation, line: line(&format!("{i}")) },
            2_000,
        );
    }
    assert!(app.logs.follow);
    assert_eq!(app.logs.scroll, 0);
    app.scroll_logs(-3);
    assert!(!app.logs.follow);
    assert_eq!(app.logs.scroll, 3);
    app.on_app_event(AppEvent::LogLine { generation, line: line("x") }, 2_100);
    assert_eq!(app.logs.scroll, 4);
    app.scroll_logs(100);
    assert_eq!(app.logs.scroll, 0);
}

#[test]
fn the_log_buffer_is_bounded() {
    let mut app = app();
    let generation = attached(&mut app);
    for i in 0..5_010 {
        app.on_app_event(
            AppEvent::LogLine { generation, line: line(&format!("{i}")) },
            2_000,
        );
    }
    assert_eq!(app.logs.lines.len(), 5_000);
    assert_eq!(app.logs.lines[0].text, "10");
}

// -- toasts and the daemon ----------------------------------------------------

#[test]
fn toasts_are_few_and_expire() {
    let mut app = app();
    for i in 0..9 {
        app.toast(ToastKind::Info, format!("{i}"), 5_000);
    }
    assert!(app.toasts.len() <= 5);
    assert_eq!(app.toasts.last().map(|t| t.text.as_str()), Some("8"));
    app.on_tick(5_000 + TOAST_TTL);
    assert!(app.toasts.is_empty());
}

#[test]
fn an_outage_is_shown_until_it_ends() {
    let mut app = app();
    app.on_app_event(AppEvent::DaemonError("no socket".into()), 1_100);
    assert_eq!(app.daemon_error.as_deref(), Some("no socket"));
    app.on_app_event(AppEvent::DaemonOk, 1_200);
    assert!(app.daemon_error.is_none());
    let info = DaemonInfo {
        version: "29.7.2".into(),
        api_version: "1.52".into(),
        os: "linux".into(),
        arch: "amd64".into(),
    };
    app.on_app_event(AppEvent::Daemon(info), 1_300);
    assert_eq!(app.daemon.version, "29.7.2");
}

#[test]
fn figures_of_containers_that_are_gone_are_forgotten() {
    let mut app = app();
    app.on_app_event(AppEvent::Stat { id: "id-web".into(), sample: sample(1.0) }, 1_100);
    let mut next = snapshot();
    next.containers.remove(0);
    app.on_app_event(AppEvent::Snapshot(next), 1_200);
    assert!(app.latest_stat("id-web").is_none());
}

// -- the palette --------------------------------------------------------------

#[test]
fn the_palette_runs_what_it_finds() {
    let mut app = app();
    press(&mut app, ':', 1_100);
    assert_eq!(app.mode, Mode::Palette);
    for c in "quit".chars() {
        press(&mut app, c, 1_200);
    }
    let found = app.palette_matches();
    assert_eq!(command_at(found[0]), Command::Quit);
    app.on_key(KeyEvent::new(KeyCode::Enter, false), 1_300);
    assert!(app.should_quit);
}

#[test]
fn the_palette_lists_everything_until_something_is_typed() {
    assert_eq!(palette_lines("").len(), 39);
    assert!(palette_lines("zzzzzz").is_empty());
    assert_eq!(command_at(palette_lines("restart")[0]), Command::Restart);
}

#[test]
fn help_closes_on_any_key() {
    let mut app = app();
    press(&mut app, '?', 1_100);
    assert_eq!(app.mode, Mode::Help);
    press(&mut app, 'x', 1_200);
    assert_eq!(app.mode, Mode::Normal);
}

#[test]
fn releasing_a_key_does_nothing() {
    let mut app = app();
    let ev = KeyEvent { code: KeyCode::Char('q'), ctrl: false, kind: KeyEventKind::Release };
    app.on_key(ev, 1_100);
    assert!(!app.should_quit);
    app.on_key(KeyEvent { kind: KeyEventKind::Press, ..ev }, 1_200);
    assert!(app.should_quit);
}

// -- the mouse ----------------------------------------------------------------

fn mouse(app: &mut App, kind: MouseEventKind, x: u16, y: u16, now: u64) {
    app.on_mouse(MouseEvent { kind, column: x, row: y }, now);
}

fn click(app: &mut App, x: u16, y: u16, now: u64) {
    mouse(app, MouseEventKind::Down(MouseButton::Left), x, y, now);
    mouse(app, MouseEventKind::Up(MouseButton::Left), x, y, now);
}

#[test]
fn clicking_a_row_selects_it() {
    let mut app = app();
    app.hits.list_body = Some(Rect { x: 0, y: 5, width: 40, height: 10 });
    click(&mut app, 3, 7, 5_000);
    assert_eq!(app.selected_container().map(|c| c.name.as_str()), Some("web"));
    let shown = app.show_detail;
    // A second click soon after toggles the detail pane.
    click(&mut app, 3, 7, 5_000 + DOUBLE_CLICK - 1);
    assert_eq!(app.show_detail, !shown);
}

#[test]
fn clicking_a_tab_switches_to_it() {
    let mut app = app();
    app.hits.tabs = vec![
        (Rect { x: 0, y: 1, width: 10, height: 1 }, Tab::Containers),
        (Rect { x: 10, y: 1, width: 10, height: 1 }, Tab::Images),
    ];
    click(&mut app, 12, 1, 5_000);
    assert_eq!(app.tab, Tab::Images);
}

#[test]
fn clicking_a_header_sorts_by_it() {
    let mut app = app();
    app.hits.list_headers = vec![(Rect { x: 0, y: 4, width: 10, height: 1 }, Sort::State)];
    click(&mut app, 2, 4, 5_000);
    assert_eq!(app.sort(), Sort::State);
}

#[test]
fn the_wheel_turns_what_it_is_over() {
    let mut app = app();
    let generation = attached(&mut app);
    for i in 0..20 {
        app.on_app_event(
            AppEvent::LogLine { generation, line: line(&format!("{i}")) },
            2_000,
        );
    }
    app.hits.logs = Some(Rect { x: 0, y: 20, width: 40, height: 10 });
    assert_eq!(app.focus, Focus::List);
    mouse(&mut app, MouseEventKind::ScrollUp, 5, 22, 3_000);
    assert_eq!(app.logs.scroll, 3);
    assert_eq!(app.cursor(), Some(0));
    mouse(&mut app, MouseEventKind::ScrollDown, 5, 2, 3_100);
    assert_eq!(app.cursor(), Some(2));
    assert_eq!(app.focus, Focus::List);
}

#[test]
fn dragging_a_splitter_resizes_its_pane() {
    let mut app = app();
    let pane = Rect { x: 0, y: 20, width: 80, height: 10 };
    app.hits.logs = Some(pane);
    app.hits.splitters = vec![(Rect { x: 0, y: 19, width: 80, height: 2 }, Splitter::Logs)];
    mouse(&mut app, MouseEventKind::Down(MouseButton::Left), 5, 20, 5_000);
    assert_eq!(app.drag, Some(Splitter::Logs));
    mouse(&mut app, MouseEventKind::Drag(MouseButton::Left), 5, 15, 5_100);
    assert_eq!(app.log_rows, Some(15));
    mouse(&mut app, MouseEventKind::Up(MouseButton::Left), 5, 15, 5_200);
    assert_eq!(app.drag, None);
    // Too big for a smaller terminal: it gives way, and stays given way.
    assert_eq!(app.log_height(16), 10);
    assert_eq!(app.log_height(40), 10);
}

#[test]
fn clicking_outside_a_dialog_cancels_it() {
    let mut app = app();
    press(&mut app, 'd', 1_100);
    app.hits.modal = Some(Rect { x: 10, y: 10, width: 20, height: 8 });
    click(&mut app, 0, 0, 5_000);
    assert_eq!(app.mode, Mode::Normal);
    assert!(app.confirm.is_none());
}

#[test]
fn clicking_a_toast_dismisses_it() {
    let mut app = app();
    app.toast(ToastKind::Info, "one".into(), 1_000);
    app.toast(ToastKind::Info, "two".into(), 1_000);
    let n = app.toasts.len();
    app.hits.toasts = vec![(Rect { x: 60, y: 20, width: 10, height: 1 }, n - 2)];
    click(&mut app, 62, 20, 1_100);
    assert_eq!(app.toasts.len(), n - 1);
    assert_eq!(app.toasts.last().map(|t| t.text.as_str()), Some("two"));
}

#[test]
fn positions_are_cells() {
    let r = Rect { x: 1, y: 1, width: 2, height: 2 };
    assert!(r.contains(Position { x: 2, y: 2 }));
    assert!(!r.contains(Position { x: 3, y: 2 }));
    assert_eq!((r.right(), r.bottom()), (3, 3));
}

#[test]
fn clicking_a_stack_header_folds_it() {
    let mut app = app();
    press(&mut app, 'z', 1_100);
    app.hits.list_body = Some(Rect { x: 0, y: 5, width: 40, height: 10 });
    click(&mut app, 3, 5, 5_000);
    assert_eq!(names(&app), vec!["[shop]", "[standalone]", "cache"]);
    click(&mut app, 3, 5, 9_000);
    assert_eq!(names(&app).len(), 5);
}

#[test]
fn double_clicking_a_border_resets_its_pane() {
    let mut app = app();
    app.log_rows = Some(12);
    app.hits.splitters = vec![(Rect { x: 0, y: 19, width: 80, height: 2 }, Splitter::Logs)];
    click(&mut app, 5, 20, 5_000);
    assert_eq!(app.log_rows, Some(12));
    click(&mut app, 5, 20, 5_100);
    assert_eq!(app.log_rows, None);
}

#[test]
fn clicking_in_a_pane_focuses_it() {
    let mut app = app();
    app.hits.logs = Some(Rect { x: 0, y: 20, width: 80, height: 10 });
    app.hits.list_body = Some(Rect { x: 0, y: 5, width: 80, height: 10 });
    click(&mut app, 5, 25, 5_000);
    assert_eq!(app.focus, Focus::Logs);
    click(&mut app, 5, 6, 9_000);
    assert_eq!(app.focus, Focus::List);
}

#[test]
fn panes_and_log_settings_toggle() {
    let mut app = app();
    app.on_key(KeyEvent::new(KeyCode::Enter, false), 1_100);
    assert!(app.show_detail);
    press(&mut app, 'w', 1_100);
    press(&mut app, 't', 1_100);
    press(&mut app, 'f', 1_100);
    assert!(app.logs.wrap && !app.logs.timestamps && !app.logs.follow);
    app.on_key(KeyEvent::new(KeyCode::Char('w'), true), 1_100);
    assert_eq!(app.focus, Focus::Logs);
    press(&mut app, 'l', 1_100);
    assert!(!app.show_logs);
}

#[test]
fn the_buttons_of_a_question_can_be_moved_between() {
    let mut app = app();
    press(&mut app, 'd', 1_100);
    assert!(app.confirm_accept);
    app.on_key(KeyEvent::new(KeyCode::Left, false), 1_200);
    app.on_key(KeyEvent::new(KeyCode::Enter, false), 1_300);
    assert!(app.confirm.is_none());
    assert!(!app.effects.iter().any(|e| matches!(e, Effect::StartJob(_))));
    // The next question starts on yes again.
    press(&mut app, 'd', 1_400);
    assert!(app.confirm_accept);
    app.on_key(KeyEvent::new(KeyCode::Enter, false), 1_500);
    assert!(app.effects.iter().any(|e| matches!(e, Effect::StartJob(_))));
}

#[test]
fn a_full_buffer_keeps_a_scrolled_view_on_its_text() {
    let mut app = app();
    let generation = attached(&mut app);
    for i in 0..5_000 {
        app.on_app_event(
            AppEvent::LogLine { generation, line: line(&format!("{i}")) },
            2_000,
        );
    }
    app.scroll_logs(-3);
    let shown = |app: &App| app.logs.lines[app.logs.lines.len() - app.logs.scroll - 1].text.clone();
    let before = shown(&app);
    app.on_app_event(AppEvent::LogLine { generation, line: line("x") }, 2_100);
    assert_eq!((app.logs.scroll, app.logs.lines.len()), (4, 5_000));
    assert_eq!(shown(&app), before);
    // At the top there is nothing further back.
    app.scroll_logs(-5_000);
    app.on_app_event(AppEvent::LogLine { generation, line: line("y") }, 2_200);
    assert_eq!((app.logs.scroll, app.logs.lines.len()), (5_000, 5_000));
}

#[test]
fn time_and_events_start_no_jobs() {
    let mut app = app();
    press(&mut app, 'd', 1_100);
    app.on_tick(60_000);
    app.on_app_event(AppEvent::Snapshot(snapshot()), 61_000);
    app.on_app_event(AppEvent::DaemonError("down".into()), 62_000);
    app.on_app_event(AppEvent::DaemonOk, 63_000);
    assert!(!app.effects.iter().any(|e| matches!(e, Effect::StartJob(_))));
    assert_eq!(app.mode, Mode::Confirm);
}
