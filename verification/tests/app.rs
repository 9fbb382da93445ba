//! The parts of the application's state.

use dockyard::app::grouping::group_rows;
use dockyard::app::hits::{find_hit, hit, HitMap};
use dockyard::app::input::{Edit, Input};
use dockyard::app::{fit, sort_cycle, Group, Sort, Splitter, Tab, ViewRow};
use dockyard::docker::model::{ContainerRow, Health, State};
use dockyard::geometry::{Position, Rect};
use dockyard::names::{NameMap, NameSet};

#[test]
fn input_edits_by_character_not_byte() {
    let mut i = Input::default();
    for c in "héllo".chars() {
        i.insert(c);
    }
    assert_eq!(i.value, "héllo");
    i.left();
    i.backspace();
    assert_eq!(i.value, "hélo");
    i.home();
    i.delete();
    assert_eq!(i.value, "élo");
}

#[test]
fn input_cursor_is_clamped() {
    let mut i = Input::default();
    i.left();
    assert_eq!(i.cursor, 0);
    i.insert('a');
    i.right();
    i.right();
    assert_eq!(i.cursor, 1);
}

#[test]
fn edits_do_what_their_methods_do() {
    let mut a = Input::default();
    let mut b = Input::default();
    for edit in [
        Edit::Insert('x'),
        Edit::Insert('é'),
        Edit::Left,
        Edit::Backspace,
        Edit::End,
        Edit::Insert('z'),
        Edit::Home,
        Edit::Right,
        Edit::Delete,
    ] {
        a.apply(edit);
        match edit {
            Edit::Insert(c) => b.insert(c),
            Edit::Left => b.left(),
            Edit::Right => b.right(),
            Edit::Home => b.home(),
            Edit::End => b.end(),
            Edit::Backspace => b.backspace(),
            Edit::Delete => b.delete(),
            Edit::Clear => b.clear(),
        }
        assert_eq!((&a.value, a.cursor), (&b.value, b.cursor));
    }
    a.apply(Edit::Clear);
    assert!(a.is_empty() && a.cursor == 0);
}

fn at(x: u16, y: u16) -> Position {
    Position { x, y }
}

#[test]
fn hit_testing_respects_bounds() {
    let r = Rect { x: 10, y: 5, width: 4, height: 2 };
    assert!(hit(Some(r), at(10, 5)));
    assert!(hit(Some(r), at(13, 6)));
    // Rect bounds are exclusive at the far edge.
    assert!(!hit(Some(r), at(14, 5)));
    assert!(!hit(Some(r), at(10, 7)));
    assert!(!hit(Some(r), at(9, 5)));
    assert!(!hit(None, at(10, 5)));
}

#[test]
fn the_first_region_under_the_pointer_wins() {
    let left = Rect { x: 0, y: 0, width: 4, height: 1 };
    let both = Rect { x: 2, y: 0, width: 4, height: 1 };
    let regions = vec![(left, Tab::Images), (both, Tab::Volumes)];
    assert_eq!(find_hit(&regions, at(3, 0)), Some(Tab::Images));
    assert_eq!(find_hit(&regions, at(5, 0)), Some(Tab::Volumes));
    assert_eq!(find_hit(&regions, at(6, 0)), None);
}

#[test]
fn hit_map_clears_every_region() {
    let mut hits = HitMap {
        tabs: vec![(Rect::default(), Tab::Images)],
        list_body: Some(Rect::default()),
        list_offset: 7,
        list_headers: vec![(Rect::default(), Sort::Cpu)],
        logs: Some(Rect::default()),
        detail: Some(Rect::default()),
        splitters: vec![(Rect::default(), Splitter::Logs)],
        palette_rows: vec![(Rect::default(), 3)],
        confirm_yes: Some(Rect::default()),
        confirm_no: Some(Rect::default()),
        modal: Some(Rect::default()),
        toasts: vec![(Rect::default(), 0)],
    };
    hits.clear();
    // A region left over from a previous frame describes a layout that no
    // longer exists, so `clear` has to be exhaustive.
    assert!(hits.tabs.is_empty());
    assert!(hits.list_body.is_none());
    assert_eq!(hits.list_offset, 0);
    assert!(hits.list_headers.is_empty());
    assert!(hits.logs.is_none());
    assert!(hits.detail.is_none());
    assert!(hits.splitters.is_empty());
    assert!(hits.palette_rows.is_empty());
    assert!(hits.confirm_yes.is_none());
    assert!(hits.confirm_no.is_none());
    assert!(hits.modal.is_none());
    assert!(hits.toasts.is_empty());
}

#[test]
fn every_sortable_column_is_in_its_tab_cycle() {
    // A column header can only sort by something the tab actually cycles
    // through; `set_sort` silently ignores anything else.
    for (tab, sorts) in [
        (Tab::Containers, vec![Sort::Name, Sort::State, Sort::Cpu, Sort::Mem]),
        (Tab::Images, vec![Sort::Name, Sort::Size, Sort::Created]),
        (Tab::Volumes, vec![Sort::Name, Sort::Created]),
        (Tab::Networks, vec![Sort::Name, Sort::Driver]),
    ] {
        for sort in sorts {
            assert!(
                sort_cycle(tab).contains(&sort),
                "{:?} column on {:?} has no matching sort",
                sort,
                tab
            );
        }
    }
}

#[test]
fn an_undragged_pane_takes_the_default() {
    let mut size = None;
    assert_eq!(fit(&mut size, 12, 40, 5, 6), 12);
    // Reading a size must not turn it into a dragged one, or the pane would
    // stop tracking the terminal as it resizes.
    assert_eq!(size, None);
}

#[test]
fn a_dragged_pane_keeps_its_size() {
    let mut size = Some(20);
    assert_eq!(fit(&mut size, 12, 40, 5, 6), 20);
    assert_eq!(size, Some(20));
}

#[test]
fn a_dragged_pane_gives_way_to_its_neighbour() {
    // 40 available, 6 reserved: 34 is as tall as this pane may be.
    let mut size = Some(200);
    assert_eq!(fit(&mut size, 12, 40, 5, 6), 34);
    // Written back, so shrinking the terminal and growing it again doesn't
    // restore a size the user can no longer see the effect of.
    assert_eq!(size, Some(34));
}

#[test]
fn a_pane_is_never_dragged_away_entirely() {
    let mut size = Some(0);
    assert_eq!(fit(&mut size, 12, 40, 5, 6), 5);
}

#[test]
fn a_terminal_too_small_for_both_still_yields_a_pane() {
    // 4 rows with 6 reserved: the reservation can't be honoured, and the
    // minimum has to win over it rather than underflowing.
    let mut size = None;
    assert_eq!(fit(&mut size, 12, 4, 5, 6), 5);
    let mut dragged = Some(30);
    assert_eq!(fit(&mut dragged, 12, 4, 5, 6), 5);
}

#[test]
fn measured_columns_start_at_the_largest_value() {
    // Opening a cpu or size column to find the idlest, smallest rows at the
    // top would be useless, so these descend before they're reversed.
    assert!(Sort::Cpu.descends_by_default());
    assert!(Sort::Mem.descends_by_default());
    assert!(Sort::Size.descends_by_default());
}

#[test]
fn text_columns_start_at_a() {
    assert!(!Sort::Name.descends_by_default());
    assert!(!Sort::State.descends_by_default());
    assert!(!Sort::Driver.descends_by_default());
}

#[test]
fn the_age_column_ascends_because_newest_is_smallest() {
    // The comparator puts the newest row first, but the column shows a
    // duration, and the newest row has the smallest of those. The chevron
    // describes the column you can see, not the timestamp behind it.
    assert!(!Sort::Created.descends_by_default());
    assert_eq!(Sort::Created.label(), "age");
}

#[test]
fn every_tab_has_a_sort_cycle() {
    for tab in Tab::all() {
        assert!(!sort_cycle(tab).is_empty());
    }
}

// -- grouping ------------------------------------------------------------

fn container(name: &str, stack: Option<&str>, state: State) -> ContainerRow {
    ContainerRow {
        id: name.into(),
        name: name.into(),
        image: String::new(),
        image_id: String::new(),
        command: String::new(),
        state,
        health: Health::Absent,
        status: String::new(),
        created: 0,
        ports: vec![],
        networks: vec![],
        mounts: vec![],
        stack: stack.map(str::to_string),
        service: Some(name.to_string()),
    }
}

/// Three stacks and two hand-started containers, which is the shape of a
/// normal machine.
fn fixture() -> Vec<ContainerRow> {
    vec![
        container("lakefs", Some("lakefs"), State::Running),
        container("argilla-postgres-1", Some("argilla"), State::Running),
        container("my-redis", None, State::Running),
        container("argilla-worker-1", Some("argilla"), State::Exited),
        container("temporal", Some("temporal"), State::Running),
        container("my-postgres", None, State::Exited),
        container("lakefs-postgres", Some("lakefs"), State::Running),
    ]
}

fn folds(names: &[&str]) -> NameSet {
    let mut out = NameSet::new();
    for name in names {
        out.insert(name);
    }
    out
}

/// The stack of each row, for readable assertions.
fn shape(containers: &[ContainerRow], rows: &[ViewRow], groups: &[Group]) -> Vec<String> {
    rows.iter()
        .map(|row| match row {
            ViewRow::Group(g) => format!("[{}]", groups[*g].label()),
            ViewRow::Item(i) => containers[*i].name.clone(),
        })
        .collect()
}

#[test]
fn stacks_are_gathered_with_standalone_last() {
    let containers = fixture();
    let all: Vec<usize> = (0..containers.len()).collect();
    let (rows, groups) = group_rows(&containers, all, &folds(&[]));

    assert_eq!(
        shape(&containers, &rows, &groups),
        vec![
            "[argilla]",
            "argilla-postgres-1",
            "argilla-worker-1",
            "[lakefs]",
            "lakefs",
            "lakefs-postgres",
            "[temporal]",
            "temporal",
            // Not a deployment, so it sorts below the things that are.
            "[standalone]",
            "my-redis",
            "my-postgres",
        ]
    );
}

#[test]
fn a_header_counts_what_is_up() {
    let containers = fixture();
    let all: Vec<usize> = (0..containers.len()).collect();
    let (_, groups) = group_rows(&containers, all, &folds(&[]));

    let argilla = groups.iter().find(|g| g.key == "argilla").unwrap();
    assert_eq!((argilla.items, argilla.running), (2, 1));
    let lakefs = groups.iter().find(|g| g.key == "lakefs").unwrap();
    assert_eq!((lakefs.items, lakefs.running), (2, 2));
}

#[test]
fn a_folded_stack_shows_its_header_and_nothing_else() {
    let containers = fixture();
    let all: Vec<usize> = (0..containers.len()).collect();
    let folded = folds(&["argilla"]);
    let (rows, groups) = group_rows(&containers, all, &folded);

    let shape = shape(&containers, &rows, &groups);
    assert!(shape.contains(&"[argilla]".to_string()));
    assert!(!shape.contains(&"argilla-postgres-1".to_string()));
    // Still knows what it's hiding, which is what the header reports.
    let argilla = groups.iter().find(|g| g.key == "argilla").unwrap();
    assert_eq!(argilla.items, 2);
    assert!(argilla.collapsed);
    // Its neighbours are untouched.
    assert!(shape.contains(&"lakefs-postgres".to_string()));
}

#[test]
fn folding_everything_leaves_only_headers() {
    let containers = fixture();
    let all: Vec<usize> = (0..containers.len()).collect();
    let folded = folds(&["argilla", "lakefs", "temporal", ""]);
    let (rows, _) = group_rows(&containers, all, &folded);
    assert!(rows.iter().all(|r| matches!(r, ViewRow::Group(_))));
    assert_eq!(rows.len(), 4);
}

#[test]
fn the_standalone_bucket_is_dropped_when_nothing_is_in_it() {
    let containers = vec![container("lakefs", Some("lakefs"), State::Running)];
    let (rows, groups) = group_rows(&containers, vec![0], &folds(&[]));
    assert_eq!(groups.len(), 1);
    assert_eq!(shape(&containers, &rows, &groups), vec!["[lakefs]", "lakefs"]);
}

#[test]
fn order_within_a_stack_is_left_alone() {
    // Grouping runs after filtering and sorting, so whatever order it is
    // handed has to survive inside each group — otherwise a fuzzy ranking or
    // a cpu sort would be silently undone.
    let containers = fixture();
    let reversed: Vec<usize> = (0..containers.len()).rev().collect();
    let (rows, groups) = group_rows(&containers, reversed, &folds(&[]));
    let shape = shape(&containers, &rows, &groups);
    let lakefs = shape.iter().position(|s| s == "[lakefs]").unwrap();
    assert_eq!(&shape[lakefs + 1..lakefs + 3], ["lakefs-postgres", "lakefs"]);
}

#[test]
fn a_service_name_shared_by_two_stacks_stays_in_both() {
    // The case that makes the stack label the right key and the service name
    // the wrong one: these two postgres containers are unrelated.
    let containers = vec![
        container("postgres", Some("argilla"), State::Running),
        container("postgres", Some("lakefs"), State::Running),
    ];
    let (rows, groups) = group_rows(&containers, vec![0, 1], &folds(&[]));
    assert_eq!(groups.len(), 2);
    assert_eq!(
        shape(&containers, &rows, &groups),
        vec!["[argilla]", "postgres", "[lakefs]", "postgres"]
    );
}

// -- names ---------------------------------------------------------------

#[test]
fn names_map_to_one_value_each() {
    let mut m: NameMap<u8> = NameMap::new();
    assert!(m.is_empty());
    m.insert("a".to_string(), 1);
    m.insert("b".to_string(), 2);
    m.insert("a".to_string(), 3);
    assert_eq!(m.get("a"), Some(&3));
    let mut only = NameSet::new();
    only.insert("a");
    only.insert("a");
    m.keep_only(&only);
    assert_eq!(m.get("b"), None);
    m.remove("a");
    assert!(m.is_empty());
    assert!(only.remove("a"));
    assert!(!only.contains("a"));
}
