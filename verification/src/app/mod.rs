//! Application state and the reducer that key presses and daemon events run
//! through.
//!
//! The main loop owns this exclusively; background tasks only ever send events,
//! so there are no locks anywhere near the render path.

pub mod acting;
pub mod commands;
pub mod events;
pub mod fields;
pub mod grouping;
pub mod hits;
pub mod input;
pub mod jobs;
pub mod keys;
pub mod laws;
pub mod listing;
pub mod mouse;
pub mod palette;
pub mod pointing;
pub mod run;
pub mod state;
pub mod telling;
pub mod tick;
pub mod views;

use vstd::prelude::*;

verus! {

broadcast use vstd::string::group_string_axioms;

/// How long a toast stays on screen, in milliseconds.
pub const TOAST_TTL: u64 = 4_000;

/// Log lines kept for the selected container.
pub const LOG_CAPACITY: usize = 5_000;

/// Grace period before opening a log stream, in milliseconds, so holding ↓
/// doesn't open one per row it passes through.
pub const LOG_DEBOUNCE: u64 = 250;

/// Two clicks on the same cell this close together, in milliseconds, count as a
/// double-click. Terminals report individual presses, so the app has to pair
/// them up.
pub const DOUBLE_CLICK: u64 = 400;

/// Rows moved per wheel notch.
pub const SCROLL_STEP: isize = 3;

// ---------------------------------------------------------------------------
// Small pieces
// ---------------------------------------------------------------------------

/// What is being listed.
#[derive(Debug, Clone, Copy, PartialEq, Eq, Structural)]
pub enum Tab {
    Containers,
    Images,
    Volumes,
    Networks,
}

/// The tab at a position, counted round and round.
pub open spec fn tab_at(i: int) -> Tab {
    if i % 4 == 0 {
        Tab::Containers
    } else if i % 4 == 1 {
        Tab::Images
    } else if i % 4 == 2 {
        Tab::Volumes
    } else {
        Tab::Networks
    }
}

impl Tab {
    /// The position of a tab.
    pub open spec fn place(self) -> int {
        match self {
            Tab::Containers => 0,
            Tab::Images => 1,
            Tab::Volumes => 2,
            Tab::Networks => 3,
        }
    }

    /// Every tab, in order.
    pub fn all() -> (out: [Tab; 4])
        ensures
            out@ == seq![Tab::Containers, Tab::Images, Tab::Volumes, Tab::Networks],
    {
        [Tab::Containers, Tab::Images, Tab::Volumes, Tab::Networks]
    }

    /// The tab at a position, counted round and round.
    pub fn at(i: usize) -> (out: Tab)
        ensures
            out == tab_at(i as int),
    {
        let k: usize = i % 4;
        if k == 0 {
            Tab::Containers
        } else if k == 1 {
            Tab::Images
        } else if k == 2 {
            Tab::Volumes
        } else {
            Tab::Networks
        }
    }

    /// The position of a tab.
    pub fn index(self) -> (out: usize)
        ensures
            out == self.place(),
    {
        match self {
            Tab::Containers => 0,
            Tab::Images => 1,
            Tab::Volumes => 2,
            Tab::Networks => 3,
        }
    }

    /// What the tab strip calls it.
    pub open spec fn title_text(self) -> Seq<char> {
        match self {
            Tab::Containers => "Containers"@,
            Tab::Images => "Images"@,
            Tab::Volumes => "Volumes"@,
            Tab::Networks => "Networks"@,
        }
    }

    /// What the tab strip calls it.
    pub fn title(self) -> (out: &'static str)
        ensures
            out@ == self.title_text(),
    {
        match self {
            Tab::Containers => "Containers",
            Tab::Images => "Images",
            Tab::Volumes => "Volumes",
            Tab::Networks => "Networks",
        }
    }
}

/// Something kept once for each tab.
pub struct PerTab<T> {
    pub containers: T,
    pub images: T,
    pub volumes: T,
    pub networks: T,
}

impl<T> PerTab<T> {
    /// What is kept for `tab`.
    pub open spec fn at(self, tab: Tab) -> T {
        match tab {
            Tab::Containers => self.containers,
            Tab::Images => self.images,
            Tab::Volumes => self.volumes,
            Tab::Networks => self.networks,
        }
    }

    /// The same with something else kept for `tab`.
    pub open spec fn with(self, tab: Tab, x: T) -> PerTab<T> {
        match tab {
            Tab::Containers => PerTab { containers: x, ..self },
            Tab::Images => PerTab { images: x, ..self },
            Tab::Volumes => PerTab { volumes: x, ..self },
            Tab::Networks => PerTab { networks: x, ..self },
        }
    }

    /// What is kept for `tab`.
    pub fn get(&self, tab: Tab) -> (out: &T)
        ensures
            *out == self.at(tab),
    {
        match tab {
            Tab::Containers => &self.containers,
            Tab::Images => &self.images,
            Tab::Volumes => &self.volumes,
            Tab::Networks => &self.networks,
        }
    }

    /// What is kept for `tab`, to be changed.
    pub fn get_mut(&mut self, tab: Tab) -> (out: &mut T)
        ensures
            *out == old(self).at(tab),
            *final(self) == old(self).with(tab, *final(out)),
    {
        match tab {
            Tab::Containers => &mut self.containers,
            Tab::Images => &mut self.images,
            Tab::Volumes => &mut self.volumes,
            Tab::Networks => &mut self.networks,
        }
    }

    /// Keep something else for `tab`.
    pub fn set(&mut self, tab: Tab, x: T)
        ensures
            *final(self) == old(self).with(tab, x),
    {
        match tab {
            Tab::Containers => {
                self.containers = x;
            },
            Tab::Images => {
                self.images = x;
            },
            Tab::Volumes => {
                self.volumes = x;
            },
            Tab::Networks => {
                self.networks = x;
            },
        }
    }
}

impl<T: DeepView> PerTab<T> {
    /// Keep something else for `tab`.
    pub fn put(&mut self, tab: Tab, x: T)
        ensures
            *final(self) == old(self).with(tab, x),
            final(self).deep_view() == old(self).deep_view().with(tab, x.deep_view()),
    {
        self.set(tab, x);
    }
}

impl<T: DeepView> DeepView for PerTab<T> {
    type V = PerTab<T::V>;

    open spec fn deep_view(&self) -> PerTab<T::V> {
        PerTab {
            containers: self.containers.deep_view(),
            images: self.images.deep_view(),
            volumes: self.volumes.deep_view(),
            networks: self.networks.deep_view(),
        }
    }
}

/// Which pane the keyboard acts on.
#[derive(Debug, Clone, Copy, PartialEq, Eq, Structural)]
pub enum Focus {
    List,
    Logs,
}

/// What the keyboard means.
#[derive(Debug, Clone, Copy, PartialEq, Eq, Structural)]
pub enum Mode {
    Normal,
    Filter,
    Palette,
    Confirm,
    Help,
}

/// What a toast is about.
#[derive(Debug, Clone, Copy, PartialEq, Eq, Structural)]
pub enum ToastKind {
    Info,
    Success,
    Error,
}

/// A message that goes away by itself.
#[derive(Debug, Clone)]
pub struct Toast {
    pub kind: ToastKind,
    pub text: String,
    /// When it came up, on the clock the app is driven by.
    pub born: u64,
}

/// The mathematical value of a [`Toast`].
#[verifier::ext_equal]
pub struct ToastView {
    pub kind: ToastKind,
    pub text: Seq<char>,
    pub born: u64,
}

impl DeepView for Toast {
    type V = ToastView;

    open spec fn deep_view(&self) -> ToastView {
        ToastView { kind: self.kind, text: self.text@, born: self.born }
    }
}

/// Sort columns, per tab.
#[derive(Debug, Clone, Copy, PartialEq, Eq, Structural)]
pub enum Sort {
    Name,
    State,
    Cpu,
    Mem,
    Size,
    Created,
    Driver,
}

impl Sort {
    /// What the UI calls a column.
    pub open spec fn label_text(self) -> Seq<char> {
        match self {
            Sort::Name => "name"@,
            Sort::State => "state"@,
            Sort::Cpu => "cpu"@,
            Sort::Mem => "mem"@,
            Sort::Size => "size"@,
            Sort::Created => "age"@,
            Sort::Driver => "driver"@,
        }
    }

    /// What the UI calls a column.
    pub fn label(self) -> (out: &'static str)
        ensures
            out@ == self.label_text(),
    {
        match self {
            Sort::Name => "name",
            Sort::State => "state",
            Sort::Cpu => "cpu",
            Sort::Mem => "mem",
            Sort::Size => "size",
            Sort::Created => "age",
            Sort::Driver => "driver",
        }
    }

    /// Whether a column starts with its largest value.
    pub open spec fn descends(self) -> bool {
        self == Sort::Cpu || self == Sort::Mem || self == Sort::Size
    }

    /// Which way this column runs when the sort isn't reversed.
    ///
    /// The orders aren't uniformly ascending, and they shouldn't be: names read
    /// best from A, but nobody opens a cpu column to look at the idle containers
    /// first. The chevron has to follow that or it would claim `NAME ▾` counts
    /// downwards.
    pub fn descends_by_default(self) -> (out: bool)
        ensures
            out == self.descends(),
    {
        match self {
            Sort::Cpu | Sort::Mem | Sort::Size => true,
            // `Created` sorts newest-first, but the column it marks shows an
            // *age*. Newest is the smallest of those, so the column ascends
            // even though the timestamps behind it descend.
            Sort::Name | Sort::State | Sort::Driver | Sort::Created => false,
        }
    }
}

/// The sort columns offered on each tab, in cycle order.
pub open spec fn cycle_of(tab: Tab) -> Seq<Sort> {
    match tab {
        Tab::Containers => seq![Sort::Name, Sort::State, Sort::Cpu, Sort::Mem, Sort::Created],
        Tab::Images => seq![Sort::Name, Sort::Size, Sort::Created],
        Tab::Volumes => seq![Sort::Name, Sort::Size, Sort::Created],
        Tab::Networks => seq![Sort::Name, Sort::Driver, Sort::Created],
    }
}

/// The sort columns offered on each tab, in cycle order.
pub fn sort_cycle(tab: Tab) -> (out: Vec<Sort>)
    ensures
        out@ == cycle_of(tab),
        out.len() > 0,
{
    match tab {
        Tab::Containers => vec![Sort::Name, Sort::State, Sort::Cpu, Sort::Mem, Sort::Created],
        Tab::Images => vec![Sort::Name, Sort::Size, Sort::Created],
        Tab::Volumes => vec![Sort::Name, Sort::Size, Sort::Created],
        Tab::Networks => vec![Sort::Name, Sort::Driver, Sort::Created],
    }
}

/// One row of a rendered list.
///
/// Grouping is the only reason this isn't just an index: a header has to occupy
/// a row of its own so it can be scrolled to, selected and clicked like any
/// other. Ungrouped tabs only ever hold `Item`.
#[derive(Debug, Clone, Copy, PartialEq, Eq, Structural)]
pub enum ViewRow {
    /// Index into the groups of the containers tab.
    Group(usize),
    /// Index into the tab's resource vector.
    Item(usize),
}

/// A stack, as summarised on its header row.
pub struct Group {
    /// The stack name, or empty for the bucket that collects containers no stack
    /// claims. Doubles as the key under which the stack is folded.
    pub key: String,
    /// Containers in the stack, whether or not they're currently listed — a
    /// collapsed group still says how much it's hiding.
    pub items: usize,
    pub running: usize,
    pub collapsed: bool,
}

/// The mathematical value of a [`Group`].
#[verifier::ext_equal]
pub struct GroupView {
    pub key: Seq<char>,
    pub items: nat,
    pub running: nat,
    pub collapsed: bool,
}

impl DeepView for Group {
    type V = GroupView;

    open spec fn deep_view(&self) -> GroupView {
        GroupView {
            key: self.key@,
            items: self.items as nat,
            running: self.running as nat,
            collapsed: self.collapsed,
        }
    }
}

impl GroupView {
    /// What a group is called.
    pub open spec fn label(self) -> Seq<char> {
        if self.key.len() == 0 {
            "standalone"@
        } else {
            self.key
        }
    }
}

impl Group {
    /// What the group is called.
    pub fn label(&self) -> (out: &str)
        ensures
            out@ == self.deep_view().label(),
    {
        if self.key.as_str().is_empty() {
            "standalone"
        } else {
            self.key.as_str()
        }
    }

    /// The bucket for containers with no stack at all. Sorted last, and styled
    /// down, because it's a leftovers pile rather than a thing someone deployed.
    pub fn is_standalone(&self) -> (out: bool)
        ensures
            out == (self.key@.len() == 0),
    {
        self.key.as_str().is_empty()
    }
}

/// A draggable boundary between two panes.
#[derive(Debug, Clone, Copy, PartialEq, Eq, Structural)]
pub enum Splitter {
    /// Between the list and the log pane, dragged vertically.
    Logs,
    /// Between the list and the detail pane when they sit side by side,
    /// dragged horizontally.
    DetailSide,
    /// The same boundary when the detail pane is stacked underneath instead,
    /// dragged vertically.
    DetailBelow,
}

/// Smallest a pane may be dragged to. Below these it stops being a pane and
/// starts being a decoration — two rows of border and nothing between them.
pub const MIN_LOG_ROWS: u16 = 5;

/// The least room a list keeps above the pane below it.
pub const MIN_LIST_ROWS: u16 = 6;

/// The least room a list keeps beside the detail pane.
pub const MIN_LIST_COLS: u16 = 40;

/// The least height of a detail pane.
pub const MIN_DETAIL_ROWS: u16 = 4;

/// The least width of a detail pane.
pub const MIN_DETAIL_COLS: u16 = 24;

/// `n` held between `low` and `high`.
pub open spec fn held(n: u16, low: u16, high: u16) -> u16 {
    if n < low {
        low
    } else if n > high {
        high
    } else {
        n
    }
}

/// The most a pane may take: what leaves `reserve` for its neighbour, but never
/// less than `min`.
pub open spec fn most(available: u16, min: u16, reserve: u16) -> u16 {
    let left = if available > reserve {
        (available - reserve) as u16
    } else {
        0
    };
    if left > min {
        left
    } else {
        min
    }
}

/// The size a pane gets.
pub open spec fn fitted(
    size: Option<u16>,
    default: u16,
    available: u16,
    min: u16,
    reserve: u16,
) -> u16 {
    held(
        match size {
            Some(n) => n,
            None => default,
        },
        min,
        most(available, min, reserve),
    )
}

/// Resolve one pane's size against the space available.
///
/// `size` is the dragged size, or `None` for "use `default`". It's clamped to
/// leave `reserve` cells for the pane it shares the axis with, never taking
/// itself below `min`, and the clamped value is written back so a size that a
/// small terminal cut down doesn't spring back when the window grows again —
/// dragging is a choice, but so is the last size that actually fitted.
///
/// When the two minimums can't both be met the pane being sized wins, and the
/// layout squeezes its neighbour. Something has to give on a 10-row terminal,
/// and the alternative is a pane with no interior at all.
pub fn fit(size: &mut Option<u16>, default: u16, available: u16, min: u16, reserve: u16) -> (out:
    u16)
    ensures
        out == fitted(*old(size), default, available, min, reserve),
        *final(size) == (if *old(size) is Some {
            Some(out)
        } else {
            None
        }),
{
    let left: u16 = if available > reserve {
        available - reserve
    } else {
        0
    };
    let high: u16 = if left > min {
        left
    } else {
        min
    };
    let wanted: u16 = match *size {
        Some(n) => n,
        None => default,
    };
    let resolved: u16 = if wanted < min {
        min
    } else if wanted > high {
        high
    } else {
        wanted
    };
    if size.is_some() {
        *size = Some(resolved);
    }
    resolved
}

/// A pane is never below its minimum; it leaves its neighbour the reserve
/// wherever both fit; and fitting a fitted size changes nothing, so a size cut
/// down by a small terminal stays cut down when there is room again.
pub proof fn fitting_is_stable(
    size: Option<u16>,
    default: u16,
    available: u16,
    larger: u16,
    min: u16,
    reserve: u16,
)
    ensures
        fitted(size, default, available, min, reserve) >= min,
        min + reserve <= available ==> fitted(size, default, available, min, reserve) + reserve
            <= available,
        larger >= available ==> fitted(
            Some(fitted(size, default, available, min, reserve)),
            default,
            larger,
            min,
            reserve,
        ) == fitted(size, default, available, min, reserve),
{
}

} // verus!
