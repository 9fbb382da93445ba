//! What is made of the daemon's answers.

use chrono::{DateTime, Local};
use dockyard::docker::actions::{plural, Job, Reply, Request};
use dockyard::docker::exec::{
    after_read, after_wait, attach_outcome, exit_outcome, on_session_event, session_request,
    signed_decimal, toast_for, Attached, Outcome, ReaderStep, SessionAction, SessionEvent,
};
use dockyard::app::ToastKind;
use dockyard::docker::logs::{
    flush, line_with, looks_like_timestamp, parse_line, FrameKind, LogInput, LogReader, Stream,
};
use dockyard::docker::model::{
    annotate_usage, ContainerRow, ContainerSummary, DaemonInfo, Health, ImageRow, ImageSummary, MountPoint,
    Network, NetworkRow, PortBinding, PortSummary, State, Volume, VolumeRow,
};
use dockyard::docker::refresh::{load, Listings, Poller, Snapshot, Subscription};
use dockyard::docker::stats::{
    reduce, sync, BlkioEntry, CpuStats, MemoryStats, NetworkStats, Percent, StatSample, StatsFrame,
    StreamTask,
};
use dockyard::docker::usage::{measured, sizes_from, Json, Measured, VolumesDiskUsage};
use dockyard::docker::{friendly_error, shorten_ids, ApiError};
use dockyard::event::AppEvent;

// -- errors -------------------------------------------------------------------

#[test]
fn long_ids_are_clipped() {
    let msg = "network dockmate-testnet id \
               4f3a2b1c9d8e7f6a5b4c3d2e1f0a9b8c7d6e5f4a3b2c1d0e9f8a7b6c5d4e3f2a \
               has active endpoints";
    let out = shorten_ids(msg);
    assert!(out.contains("id 4f3a2b1c9d8e "), "{out}");
    assert!(out.ends_with("has active endpoints"));
}

#[test]
fn ordinary_words_survive() {
    // "decade" and "added" are all hex digits but far too short to be ids.
    let msg = "the decade added beef to cafe";
    assert_eq!(shorten_ids(msg), msg);
}

#[test]
fn errors_are_said_in_the_daemons_words() {
    let refused = ApiError::Server { status_code: 409, message: "conflict: in use\n".to_string() };
    assert_eq!(friendly_error(&refused), "conflict: in use");
    let other = ApiError::Other("connection refused".to_string());
    assert_eq!(friendly_error(&other), "connection refused");
}

// -- log lines ----------------------------------------------------------------

#[test]
fn timestamp_is_split_off_and_localised() {
    let l = parse_line("2026-08-10T10:22:14.123456789Z hello world", Stream::Stdout);
    assert_eq!(l.text, "hello world");

    // Docker stamps UTC; we render in the machine's zone, so derive the
    // expectation rather than hard-coding one timezone's answer.
    let expected = DateTime::parse_from_rfc3339("2026-08-10T10:22:14.123456789Z")
        .unwrap()
        .with_timezone(&Local)
        .format("%H:%M:%S")
        .to_string();
    assert_eq!(l.timestamp.as_deref(), Some(expected.as_str()));
}

#[test]
fn unparseable_timestamp_falls_back_to_the_raw_field() {
    // Right shape, impossible date — keep the characters rather than
    // dropping the column.
    let l = parse_line("2026-99-99T10:22:14.000000000Z boom", Stream::Stdout);
    assert_eq!(l.timestamp.as_deref(), Some("10:22:14"));
    assert_eq!(l.text, "boom");
}

#[test]
fn untimestamped_line_survives_intact() {
    let l = parse_line("plain message here", Stream::Stdout);
    assert!(l.timestamp.is_none());
    assert_eq!(l.text, "plain message here");
}

#[test]
fn a_final_line_without_a_newline_still_arrives() {
    let mut buf = b"2026-08-10T10:22:14.000000000Z no trailing newline".to_vec();

    let sent = flush(&mut buf, Stream::Stdout, 7);

    assert!(buf.is_empty(), "the buffer should be consumed");
    match sent.expect("a line should have been sent") {
        AppEvent::LogLine { generation, line } => {
            assert_eq!(generation, 7);
            assert_eq!(line.text, "no trailing newline");
            assert_eq!(line.stream, Stream::Stdout);
        }
        other => panic!("expected a log line, got {other:?}"),
    }
}

#[test]
fn flushing_an_empty_buffer_sends_nothing() {
    // Otherwise every stream that ends cleanly would append a blank line.
    assert!(flush(&mut Vec::new(), Stream::Stdout, 1).is_none());
}

#[test]
fn a_flushed_line_keeps_its_stream() {
    let mut buf = b"panic: something broke".to_vec();

    match flush(&mut buf, Stream::Stderr, 1).expect("a line should have been sent") {
        AppEvent::LogLine { line, .. } => {
            assert_eq!(line.stream, Stream::Stderr);
            assert!(line.timestamp.is_none());
            assert_eq!(line.text, "panic: something broke");
        }
        other => panic!("expected a log line, got {other:?}"),
    }
}

#[test]
fn line_with_no_space_is_not_mangled() {
    let l = parse_line("no-spaces-at-all", Stream::Stderr);
    assert!(l.timestamp.is_none());
    assert_eq!(l.text, "no-spaces-at-all");
}

#[test]
fn a_clock_is_used_as_it_is_given() {
    assert!(looks_like_timestamp("2026-08-10T10:22:14.123456789Z"));
    assert!(!looks_like_timestamp("hello"));
    let raw = "2026-08-10T10:22:14.123456789Z hi";
    let l = line_with(raw, Stream::Stdout, Some("23:59:59".to_string()));
    assert_eq!(l.timestamp.as_deref(), Some("23:59:59"));
    assert_eq!(l.text, "hi");
}

fn texts(events: &[AppEvent]) -> Vec<String> {
    events
        .iter()
        .filter_map(|e| match e {
            AppEvent::LogLine { line, .. } => Some(line.text.clone()),
            _ => None,
        })
        .collect()
}

#[test]
fn frames_need_not_end_where_lines_do() {
    let mut reader = LogReader::new(3);
    let (first, over) = reader.step(LogInput::Frame {
        kind: FrameKind::StdOut,
        bytes: b"one\ntw".to_vec(),
    });
    assert!(!over);
    assert_eq!(texts(&first), vec!["one"]);
    let (second, _) = reader.step(LogInput::Frame {
        kind: FrameKind::StdOut,
        bytes: b"o\r\nthree".to_vec(),
    });
    assert_eq!(texts(&second), vec!["two"]);
    let (last, over) = reader.step(LogInput::Ended);
    assert!(over);
    assert_eq!(texts(&last), vec!["three"]);
    assert!(matches!(last.last(), Some(AppEvent::LogEnd { generation: 3 })));
}

#[test]
fn a_quiet_stream_is_attached_all_the_same() {
    let mut reader = LogReader::new(3);
    let (events, over) = reader.step(LogInput::Quiet);
    assert!(!over);
    assert_eq!(events.len(), 1);
    assert!(matches!(events[0], AppEvent::LogAttached { generation: 3 }));
}

#[test]
fn the_two_streams_do_not_mix() {
    let mut reader = LogReader::new(1);
    reader.step(LogInput::Frame { kind: FrameKind::StdOut, bytes: b"out".to_vec() });
    let (events, _) = reader.step(LogInput::Frame { kind: FrameKind::StdErr, bytes: b"err\n".to_vec() });
    assert_eq!(texts(&events), vec!["err"]);
    let (rest, _) = reader.step(LogInput::Ended);
    assert_eq!(texts(&rest), vec!["out"]);
}

#[test]
fn bad_bytes_are_replaced() {
    let mut buf = vec![b'a', 0xFF, b'b'];
    match flush(&mut buf, Stream::Stdout, 1) {
        Some(AppEvent::LogLine { line, .. }) => assert_eq!(line.text, "a\u{FFFD}b"),
        other => panic!("expected a log line, got {other:?}"),
    }
}

#[test]
fn a_failed_stream_says_why() {
    let mut reader = LogReader::new(2);
    let (events, over) = reader.step(LogInput::Failed(ApiError::Other("gone".to_string())));
    assert!(over);
    assert!(events.iter().any(
        |e| matches!(e, AppEvent::LogError { generation: 2, message } if message == "gone")
    ));
}

// -- rows ---------------------------------------------------------------------

fn image(tags: &[&str], containers: i64) -> ImageSummary {
    ImageSummary {
        id: "sha256:abc".into(),
        repo_tags: tags.iter().map(|t| t.to_string()).collect(),
        created: 0,
        size: 100,
        shared_size: 0,
        containers,
    }
}

#[test]
fn image_rows_split_by_tag() {
    let img = image(&["nginx:alpine", "nginx:latest"], 1);
    let rows = ImageRow::from_api(&img);
    assert_eq!(rows.len(), 2);
    assert_eq!(rows[0].reference(), "nginx:alpine");
    assert_eq!(rows[1].tag, "latest");
}

#[test]
fn registry_port_is_not_a_tag() {
    let img = image(&["registry:5000/team/app"], 0);
    let rows = ImageRow::from_api(&img);
    assert_eq!(rows[0].repository, "registry:5000/team/app");
    assert_eq!(rows[0].tag, "latest");
}

#[test]
fn untagged_image_is_dangling() {
    let img = image(&["<none>:<none>"], 0);
    let rows = ImageRow::from_api(&img);
    assert!(rows[0].dangling);
    assert_eq!(rows[0].reference(), "abc");
    assert_eq!(rows[0].search_key(), "abc abc");
}

fn container(id: &str, state: State) -> ContainerRow {
    ContainerRow {
        id: id.into(),
        name: "a".into(),
        image: String::new(),
        image_id: String::new(),
        command: String::new(),
        state,
        health: Health::Absent,
        status: String::new(),
        created: 0,
        ports: vec![],
        networks: vec!["bridge".into()],
        mounts: vec!["data".into(), "data".into()],
        stack: None,
        service: None,
    }
}

fn volume(name: &str) -> VolumeRow {
    VolumeRow {
        name: name.into(),
        driver: "local".into(),
        mountpoint: String::new(),
        created: None,
        size: None,
        compose_project: None,
        used_by: 0,
    }
}

fn network(name: &str) -> NetworkRow {
    NetworkRow {
        id: "n".into(),
        name: name.into(),
        driver: "bridge".into(),
        scope: "local".into(),
        subnets: vec![],
        internal: false,
        ipv6: false,
        created: None,
        compose_project: None,
        used_by: 0,
    }
}

#[test]
fn usage_is_counted_once_per_container() {
    let containers = vec![container("1", State::Running)];
    let mut volumes = vec![volume("data")];
    let mut networks = vec![network("bridge")];
    annotate_usage(&containers, &mut volumes, &mut networks);
    assert_eq!(volumes[0].used_by, 1);
    assert_eq!(networks[0].used_by, 1);
}

#[test]
fn annotating_again_changes_nothing() {
    let containers = vec![container("1", State::Running), container("2", State::Exited)];
    let mut volumes = vec![volume("data"), volume("other")];
    let mut networks = vec![network("bridge"), network("lonely")];
    for _ in 0..2 {
        annotate_usage(&containers, &mut volumes, &mut networks);
        assert_eq!((volumes[0].used_by, volumes[1].used_by), (2, 0));
        assert_eq!((networks[0].used_by, networks[1].used_by), (2, 0));
    }
    assert!(networks[0].is_predefined());
    assert!(!networks[1].is_predefined());
}

fn summary() -> ContainerSummary {
    ContainerSummary {
        id: Some("c1".into()),
        names: Some(vec!["/web".into()]),
        image: Some("nginx".into()),
        image_id: Some("sha256:abc".into()),
        command: Some("run".into()),
        created: Some(7),
        ports: Some(vec![
            PortSummary {
                ip: Some("0.0.0.0".into()),
                public_port: Some(8080),
                private_port: 80,
                typ: Some("tcp".into()),
            },
            PortSummary {
                ip: Some("::".into()),
                public_port: Some(8080),
                private_port: 80,
                typ: Some("tcp".into()),
            },
        ]),
        labels: vec![
            ("com.docker.compose.project".into(), "shop".into()),
            ("com.docker.compose.service".into(), "web".into()),
        ],
        state: Some("running".into()),
        status: Some("Up 2 days".into()),
        health: Some("healthy".into()),
        networks: vec!["shop_default".into()],
        mounts: Some(vec![
            MountPoint { name: Some("data".into()), source: Some("/x".into()) },
            MountPoint { name: None, source: Some("/srv".into()) },
        ]),
    }
}

#[test]
fn a_container_is_read_off_its_summary() {
    let row = ContainerRow::from_api(summary());
    assert_eq!((row.id.as_str(), row.name.as_str()), ("c1", "web"));
    assert_eq!(row.state, State::Running);
    assert_eq!(row.health, Health::Healthy);
    assert_eq!(row.stack.as_deref(), Some("shop"));
    assert_eq!(row.service_label(), "web");
    assert_eq!(row.mounts, vec!["data".to_string(), "/srv".to_string()]);
    // One binding, though IPv4 and IPv6 both report it.
    assert_eq!(row.ports_display(), "8080→80/tcp");
    assert!(row.search_key().contains("web") && row.search_key().contains("shop"));
}

fn listed(ip: &str, port: u16, typ: Option<&str>) -> PortSummary {
    PortSummary {
        ip: Some(ip.into()),
        public_port: Some(port),
        private_port: port,
        typ: typ.map(|t| t.into()),
    }
}

#[test]
fn a_port_is_listed_once_for_each_protocol() {
    let mut c = summary();
    c.ports = Some(vec![
        listed("0.0.0.0", 53, Some("tcp")),
        listed("0.0.0.0", 53, Some("udp")),
        listed("::", 53, None),
        listed("::", 53, Some("udp")),
        listed("0.0.0.0", 22, Some("tcp")),
    ]);
    let row = ContainerRow::from_api(c);
    assert_eq!(row.ports_display(), "22→22/tcp, 53→53/tcp, 53→53/udp");
    assert_eq!(row.ports_display_with("->"), "22->22/tcp, 53->53/tcp, 53->53/udp");
}

#[test]
fn a_flushed_line_is_decoded() {
    let mut buf = "grüße — 世界\r".as_bytes().to_vec();
    match flush(&mut buf, Stream::Stdout, 3) {
        Some(AppEvent::LogLine { generation, line }) => {
            assert_eq!(generation, 3);
            assert_eq!(line.text, "grüße — 世界");
        }
        other => panic!("{other:?}"),
    }
}

#[test]
fn a_stack_deployment_is_read_from_its_namespace() {
    let mut c = summary();
    c.labels = vec![("com.docker.stack.namespace".into(), "swarm".into())];
    let row = ContainerRow::from_api(c);
    assert_eq!(row.stack.as_deref(), Some("swarm"));
    assert_eq!(row.service_label(), "web");
}

#[test]
fn ports_say_what_they_reach() {
    let p = PortBinding { ip: None, public: Some(53), private: 53, proto: "udp".into() };
    assert_eq!(p.display(), "53→53/udp");
    let q = PortBinding { ip: None, public: None, private: 80, proto: "tcp".into() };
    assert_eq!(q.display(), "80/tcp");
    let r = PortBinding {
        ip: Some("127.0.0.1".into()),
        public: Some(1),
        private: 2,
        proto: "tcp".into(),
    };
    assert_eq!(r.display(), "127.0.0.1:1→2/tcp");
}

#[test]
fn states_are_named() {
    assert_eq!(State::from_api(&Some("paused".into())), State::Paused);
    assert_eq!(State::from_api(&Some("what".into())), State::Unknown);
    assert_eq!(State::from_api(&None), State::Unknown);
    assert!(State::Running.is_running() && State::Running.is_live());
    assert!(State::Paused.is_live() && !State::Paused.is_running());
    assert!(!State::Exited.is_live());
    assert!(State::Running.order() < State::Exited.order());
    assert_eq!(State::Exited.label(), "exited");
}

#[test]
fn volumes_and_networks_are_read() {
    let v = VolumeRow::from_api(Volume {
        name: "pg".into(),
        driver: "local".into(),
        mountpoint: "/m".into(),
        created_at: Some(9),
        labels: vec![("com.docker.compose.project".into(), "shop".into())],
        usage_size: Some(-1),
    });
    assert_eq!(v.compose_project.as_deref(), Some("shop"));
    assert_eq!(v.created, Some(9));
    assert!(v.search_key().contains("pg"));
    let n = NetworkRow::from_api(Network {
        id: Some("n1".into()),
        name: Some("net".into()),
        driver: None,
        scope: None,
        subnets: vec![Some("10.0.0.0/8".into()), None],
        internal: Some(true),
        enable_ipv6: None,
        created: None,
        labels: vec![],
    });
    assert_eq!(n.subnets, vec!["10.0.0.0/8".to_string()]);
    assert!(n.internal && !n.ipv6);
    assert!(n.search_key().contains("net"));
}

// -- stats --------------------------------------------------------------------

fn cpu(total: u64, system: u64) -> CpuStats {
    CpuStats {
        total_usage: Some(total),
        percpu_cores: None,
        system_cpu_usage: Some(system),
        online_cpus: Some(4),
    }
}

fn frame(cpu_stats: CpuStats, precpu: CpuStats) -> StatsFrame {
    StatsFrame {
        cpu_stats: Some(cpu_stats),
        precpu_stats: Some(precpu),
        memory_stats: Some(MemoryStats {
            usage: Some(200),
            limit: Some(1000),
            stats: vec![("inactive_file".to_string(), 50u64)],
        }),
        networks: vec![],
        blkio: vec![],
        pids: None,
    }
}

#[test]
fn first_frame_is_skipped() {
    // precpu system usage of 0 means there's no baseline.
    let f = frame(cpu(100, 1000), cpu(0, 0));
    assert!(reduce(&f).is_none());
}

#[test]
fn cpu_percent_matches_docker_formula() {
    // 10% of one core across 4 cores => 40%.
    let f = frame(cpu(1_100, 11_000), cpu(1_000, 10_000));
    let r = reduce(&f).unwrap();
    let percent = r.cpu_delta as f64 / r.system_delta as f64 * r.cores as f64 * 100.0;
    assert!((percent - 40.0).abs() < 0.001, "got {}", percent);
}

#[test]
fn page_cache_is_excluded_from_memory() {
    let f = frame(cpu(1_100, 11_000), cpu(1_000, 10_000));
    let r = reduce(&f).unwrap();
    assert_eq!(r.mem_bytes, 150);
    assert_eq!(r.mem_limit, 1000);
    let share = r.mem_bytes as f64 / r.mem_limit as f64 * 100.0;
    let s = StatSample {
        cpu_percent: Percent { bits: 0 },
        cpu_text: String::new(),
        mem_bytes: r.mem_bytes,
        mem_limit: r.mem_limit,
        mem_share: Percent { bits: share.to_bits() },
        net_rx: 0,
        net_tx: 0,
        block_read: 0,
        block_write: 0,
        pids: 0,
    };
    assert!((f64::from_bits(s.mem_percent().unwrap().bits) - 15.0).abs() < 0.001);
    assert!(StatSample { mem_limit: 0, ..s }.mem_percent().is_none());
}

#[test]
fn traffic_is_summed() {
    let mut f = frame(cpu(1_100, 11_000), cpu(1_000, 10_000));
    f.networks = vec![
        NetworkStats { rx_bytes: Some(1), tx_bytes: Some(10) },
        NetworkStats { rx_bytes: Some(2), tx_bytes: None },
    ];
    f.blkio = vec![
        BlkioEntry { op: Some("read".into()), value: Some(5) },
        BlkioEntry { op: Some("Write".into()), value: Some(7) },
        BlkioEntry { op: Some("sync".into()), value: Some(9) },
    ];
    f.pids = Some(3);
    let r = reduce(&f).unwrap();
    assert_eq!((r.net_rx, r.net_tx), (3, 10));
    assert_eq!((r.block_read, r.block_write), (5, 7));
    assert_eq!(r.pids, 3);
}

#[test]
fn streams_follow_what_runs() {
    let tasks = vec![
        StreamTask { id: "gone".into(), finished: false },
        StreamTask { id: "kept".into(), finished: false },
        StreamTask { id: "ended".into(), finished: true },
    ];
    let containers = vec![
        container("kept", State::Running),
        container("ended", State::Running),
        container("fresh", State::Running),
        container("down", State::Exited),
    ];
    let plan = sync(&tasks, &containers);
    assert!(plan.abort.contains(&"gone".to_string()));
    assert!(!plan.abort.contains(&"kept".to_string()));
    assert_eq!(plan.start, vec!["ended".to_string(), "fresh".to_string()]);
}

// -- disk usage ---------------------------------------------------------------

fn entry(name: &str, size: Option<i64>) -> Json {
    let mut fields = vec![("Name".to_string(), Json::Text(name.to_string()))];
    if let Some(n) = size {
        fields.push((
            "UsageData".to_string(),
            Json::Object(vec![
                ("Size".to_string(), Json::Integer(n)),
                ("RefCount".to_string(), Json::Integer(0)),
            ]),
        ));
    }
    Json::Object(fields)
}

fn usage(items: Vec<Json>) -> Option<VolumesDiskUsage> {
    Some(VolumesDiskUsage { items: Some(items) })
}

#[test]
fn sizes_are_read_by_name() {
    let got = sizes_from(usage(vec![entry("pgdata", Some(4096)), entry("cache", Some(0))]));
    assert_eq!(got.get("pgdata"), Some(&4096));
    assert_eq!(got.get("cache"), Some(&0));
}

#[test]
fn unmeasured_volumes_are_left_out() {
    // -1 is "I didn't compute this", which is not the same as empty. It has
    // to stay absent so the table shows a dash rather than 0B.
    let got = sizes_from(usage(vec![entry("remote", Some(-1)), entry("nodata", None)]));
    assert!(got.is_empty(), "{got:?}");
}

#[test]
fn a_missing_section_is_not_an_error() {
    assert!(sizes_from(None).is_empty());
}

#[test]
fn a_refused_measurement_says_why() {
    match measured(Err(ApiError::Other("no".to_string()))) {
        Measured::Failed(message) => assert!(message.contains("no")),
        Measured::Sizes(_) => panic!("that failed"),
    }
    match measured(Ok(usage(vec![entry("pg", Some(1))]))) {
        Measured::Sizes(sizes) => assert_eq!(sizes.get("pg"), Some(&1)),
        Measured::Failed(message) => panic!("{message}"),
    }
}

// -- jobs ---------------------------------------------------------------------

#[test]
fn a_job_knows_its_request_and_its_answer() {
    let job = Job::Kill { id: "c1".into(), name: "web".into() };
    assert_eq!(job.request(), Request::KillContainer { id: "c1".into(), signal: "SIGKILL" });
    assert_eq!(job.target_id(), Some("c1"));
    assert!(job.needs_confirmation());
    assert_eq!(job.confirm_prompt().0, "Kill container?");
    let done = Reply { deleted: None, space_reclaimed: None };
    assert_eq!(job.outcome(&Ok(done)), Ok("killed web".to_string()));
    assert_eq!(
        job.outcome(&Err(ApiError::Other("down".into()))),
        Err("down".to_string())
    );
    let start = Job::Start { id: "c1".into(), name: "web".into() };
    assert!(!start.needs_confirmation());
    assert_eq!(start.done_message(), "started web");
}

#[test]
fn pruning_says_what_it_freed() {
    let reply = Reply { deleted: Some(2), space_reclaimed: Some(2048) };
    assert_eq!(
        Job::PruneImages.outcome(&Ok(reply)),
        Ok("pruned 2 images (2.00kB reclaimed)".to_string())
    );
    let one = Reply { deleted: Some(1), space_reclaimed: Some(-5) };
    assert_eq!(
        Job::PruneContainers.outcome(&Ok(one)),
        Ok("pruned 1 container (0B reclaimed)".to_string())
    );
    assert_eq!(Job::PruneNetworks.outcome(&Ok(one)), Ok("pruned 1 network".to_string()));
    assert_eq!((plural(1), plural(2)), ("", "s"));
}

// -- shells -------------------------------------------------------------------

#[test]
fn a_shell_session_is_asked_for_and_ends() {
    let asked = session_request();
    assert!(asked.tty);
    assert_eq!(asked.cmd[0], "/bin/sh");
    assert_eq!(attach_outcome(&Attached::Yes), None);
    assert!(matches!(attach_outcome(&Attached::Detached), Some(Outcome::Failed(_))));
    assert_eq!(
        attach_outcome(&Attached::Refused(ApiError::Other("no".into()))),
        Some(Outcome::Failed("no".to_string()))
    );
    assert_eq!(exit_outcome(None), Outcome::Exited(0));
    assert_eq!(exit_outcome(Some(127)), Outcome::Exited(127));
}

#[test]
fn a_session_carries_bytes_both_ways() {
    assert_eq!(
        on_session_event(SessionEvent::Output(FrameKind::Console)),
        SessionAction::ToTerminal
    );
    assert_eq!(on_session_event(SessionEvent::Output(FrameKind::StdIn)), SessionAction::Ignore);
    assert_eq!(on_session_event(SessionEvent::Keys), SessionAction::ToContainer);
    assert_eq!(on_session_event(SessionEvent::OutputClosed), SessionAction::Finish);
    assert_eq!(after_wait(0, false), ReaderStep::Again);
    assert_eq!(after_wait(1, false), ReaderStep::Read);
    assert_eq!(after_wait(-1, true), ReaderStep::Again);
    assert_eq!(after_wait(-1, false), ReaderStep::Stop);
    assert_eq!(after_read(Some(0), false), ReaderStep::Stop);
    assert_eq!(after_read(Some(3), false), ReaderStep::Deliver(3));
    assert_eq!(after_read(None, true), ReaderStep::Again);
}

#[test]
fn a_shell_that_ended_well_needs_no_comment() {
    assert!(toast_for("web", &Ok(Outcome::Exited(0))).is_none());
    assert_eq!(
        toast_for("web", &Ok(Outcome::Exited(-1))),
        Some((ToastKind::Info, "shell in web exited with status -1".to_string()))
    );
    assert_eq!(
        toast_for("web", &Ok(Outcome::Failed("no sh".into()))),
        Some((ToastKind::Error, "could not open a shell: no sh".to_string()))
    );
    assert_eq!(
        toast_for("web", &Err("pipe".into())),
        Some((ToastKind::Error, "exec failed: pipe".to_string()))
    );
    assert_eq!(signed_decimal(i64::MIN), i64::MIN.to_string());
}

// -- refreshing ---------------------------------------------------------------

fn listings(containers: Result<Vec<ContainerSummary>, ApiError>) -> Listings {
    Listings { containers, images: None, volumes: None, networks: None }
}

#[test]
fn a_refresh_needs_the_containers() {
    let snap = load(listings(Ok(vec![summary()]))).unwrap();
    assert_eq!(snap.containers.len(), 1);
    assert!(snap.images.is_empty() && snap.volumes.is_empty() && snap.networks.is_empty());
    let failed = load(listings(Err(ApiError::Other("down".into()))));
    assert_eq!(failed.err(), Some("down".to_string()));
}

fn empty() -> Snapshot {
    Snapshot { containers: vec![], images: vec![], volumes: vec![], networks: vec![] }
}

#[test]
fn an_outage_is_announced_once_and_its_end_too() {
    let mut poller = Poller::new();
    let first = poller.step(Err("down".to_string()));
    assert!(matches!(first[0], AppEvent::DaemonError(_)));
    let back = poller.step(Ok(empty()));
    assert!(back.iter().any(|e| matches!(e, AppEvent::DaemonOk)));
    assert!(back.iter().any(|e| matches!(e, AppEvent::Snapshot(_))));
    let on = poller.step(Ok(empty()));
    assert!(!on.iter().any(|e| matches!(e, AppEvent::DaemonOk)));
}

#[test]
fn a_broken_subscription_backs_off() {
    let mut sub = Subscription::new();
    let first = sub.pause();
    let second = sub.pause();
    assert_eq!((first, second), (500, 1000));
    for _ in 0..10 {
        sub.pause();
    }
    assert_eq!(sub.pause(), 10_000);
    sub.on_event();
    assert_eq!(sub.pause(), 500);
    assert!(matches!(sub.on_error(&ApiError::Other("x".into())), AppEvent::DaemonError(_)));
}

#[test]
fn a_daemon_without_a_version_is_unknown() {
    let silent = DaemonInfo::from_api(None, None, None, None);
    assert_eq!((silent.version.as_str(), silent.os.as_str()), ("unknown", ""));
    let told = DaemonInfo::from_api(Some("29".into()), Some("1.52".into()), None, Some("arm64".into()));
    assert_eq!((told.version.as_str(), told.arch.as_str()), ("29", "arm64"));
}

#[test]
fn references_read_back_as_their_tags() {
    let tags = ["nginx:alpine", "host:5000/a/b:v1", "host:5000/a/b", "plain"];
    let rows = ImageRow::from_api(&image(&tags, 0));
    let read: Vec<String> = rows.iter().map(|r| r.reference()).collect();
    assert_eq!(
        read,
        vec!["nginx:alpine", "host:5000/a/b:v1", "host:5000/a/b:latest", "plain:latest"]
    );
}
