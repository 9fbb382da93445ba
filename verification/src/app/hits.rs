//! What the mouse can hit.

use vstd::prelude::*;

use crate::action::COMMAND_COUNT;
use crate::app::{Sort, Splitter, Tab};
use crate::geometry::{Position, Rect};

verus! {

/// Where the last frame put things the mouse can hit.
///
/// A TUI has no widget tree to hit-test against, so the render pass records the
/// rectangles it drew and the mouse reducer consults them. It's rebuilt from
/// scratch every frame, which keeps it honest: a region can never outlive the
/// thing that drew it.
#[derive(Debug, Clone)]
pub struct HitMap {
    pub tabs: Vec<(Rect, Tab)>,
    /// The table's data rows, excluding the column header.
    pub list_body: Option<Rect>,
    /// View position of the first row inside `list_body`.
    pub list_offset: usize,
    /// Column headers that select a sort when clicked.
    pub list_headers: Vec<(Rect, Sort)>,
    pub logs: Option<Rect>,
    pub detail: Option<Rect>,
    /// The boundaries between panes, each a couple of cells thick so they can
    /// actually be grabbed.
    pub splitters: Vec<(Rect, Splitter)>,
    /// Palette entries, paired with their line in the command table.
    pub palette_rows: Vec<(Rect, usize)>,
    pub confirm_yes: Option<Rect>,
    pub confirm_no: Option<Rect>,
    /// The modal box itself, so a click outside it can dismiss.
    pub modal: Option<Rect>,
    /// Toasts, paired with their index among the toasts.
    pub toasts: Vec<(Rect, usize)>,
}

/// The mathematical value of a [`HitMap`].
pub struct HitView {
    pub tabs: Seq<(Rect, Tab)>,
    pub list_body: Option<Rect>,
    pub list_offset: usize,
    pub list_headers: Seq<(Rect, Sort)>,
    pub logs: Option<Rect>,
    pub detail: Option<Rect>,
    pub splitters: Seq<(Rect, Splitter)>,
    pub palette_rows: Seq<(Rect, usize)>,
    pub confirm_yes: Option<Rect>,
    pub confirm_no: Option<Rect>,
    pub modal: Option<Rect>,
    pub toasts: Seq<(Rect, usize)>,
}

impl DeepView for HitMap {
    type V = HitView;

    open spec fn deep_view(&self) -> HitView {
        HitView {
            tabs: self.tabs@,
            list_body: self.list_body,
            list_offset: self.list_offset,
            list_headers: self.list_headers@,
            logs: self.logs,
            detail: self.detail,
            splitters: self.splitters@,
            palette_rows: self.palette_rows@,
            confirm_yes: self.confirm_yes,
            confirm_no: self.confirm_no,
            modal: self.modal,
            toasts: self.toasts@,
        }
    }
}

impl HitView {
    /// Whether every palette entry stands for a line of the command table.
    pub open spec fn sound(self) -> bool {
        forall|k: int|
            0 <= k < self.palette_rows.len() ==> (#[trigger] self.palette_rows[k]).1
                < COMMAND_COUNT
    }
}

/// A frame that drew nothing.
pub open spec fn nothing_drawn() -> HitView {
    HitView {
        tabs: Seq::empty(),
        list_body: None,
        list_offset: 0,
        list_headers: Seq::empty(),
        logs: None,
        detail: None,
        splitters: Seq::empty(),
        palette_rows: Seq::empty(),
        confirm_yes: None,
        confirm_no: None,
        modal: None,
        toasts: Seq::empty(),
    }
}

impl Default for HitMap {
    fn default() -> (out: HitMap)
        ensures
            out.deep_view() == nothing_drawn(),
    {
        HitMap {
            tabs: Vec::new(),
            list_body: None,
            list_offset: 0,
            list_headers: Vec::new(),
            logs: None,
            detail: None,
            splitters: Vec::new(),
            palette_rows: Vec::new(),
            confirm_yes: None,
            confirm_no: None,
            modal: None,
            toasts: Vec::new(),
        }
    }
}

impl HitMap {
    /// Forget every region.
    pub fn clear(&mut self)
        ensures
            final(self).deep_view() == nothing_drawn(),
    {
        self.tabs.clear();
        self.list_body = None;
        self.list_offset = 0;
        self.list_headers.clear();
        self.logs = None;
        self.detail = None;
        self.splitters.clear();
        self.palette_rows.clear();
        self.confirm_yes = None;
        self.confirm_no = None;
        self.modal = None;
        self.toasts.clear();
    }
}

/// Whether there is a region and `at` lies in it.
pub open spec fn hits(rect: Option<Rect>, at: Position) -> bool {
    match rect {
        Some(r) => r.holds(at),
        None => false,
    }
}

/// Whether there is a region and `at` lies in it.
pub fn hit(rect: Option<Rect>, at: Position) -> (out: bool)
    ensures
        out == hits(rect, at),
{
    match rect {
        Some(r) => r.contains(at),
        None => false,
    }
}

/// What the first region that holds `at` stands for, among those from `i` on.
pub open spec fn first_hit<T>(regions: Seq<(Rect, T)>, at: Position, i: int) -> Option<T>
    decreases regions.len() - i,
{
    if i >= regions.len() {
        None
    } else if regions[i].0.holds(at) {
        Some(regions[i].1)
    } else {
        first_hit(regions, at, i + 1)
    }
}

/// What the first region that holds `at` stands for.
pub fn find_hit<T: Copy>(regions: &Vec<(Rect, T)>, at: Position) -> (out: Option<T>)
    ensures
        out == first_hit(regions@, at, 0),
{
    let mut i: usize = 0;
    while i < regions.len()
        invariant
            i <= regions.len(),
            first_hit(regions@, at, 0) == first_hit(regions@, at, i as int),
        decreases regions.len() - i,
    {
        if regions[i].0.contains(at) {
            return Some(regions[i].1);
        }
        i += 1;
    }
    None
}

} // verus!
