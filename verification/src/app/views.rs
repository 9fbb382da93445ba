//! Which rows a tab shows, in which order, and which of them is selected.

use vstd::prelude::*;

use crate::app::grouping::{
    group_rows, grouped_rows, headers, item_rows, rows_point_at_something, stacks,
};
use crate::app::state::{group_by_key, part, same_lists, App, AppState};
use crate::app::{cycle_of, Group, GroupView, Sort, Tab, ViewRow};
use crate::docker::model::{container_key, image_key, reference_text};
use crate::order::{
    number_key, sort_by_keys, sorted_by, sorting_keeps_members, text_key, KeyView, SortKey,
};
use crate::text::{owned, put, same};
use crate::util::fuzzy::{rank_keys, ranking, ranking_is_exact};

verus! {

broadcast use vstd::string::group_string_axioms;

/// Larger than the negation of any timestamp: what has no date comes last.
pub const UNDATED: i128 = 0x8000_0000_0000_0001;

impl AppState {
    // -- candidates ----------------------------------------------------------

    /// The containers, among the first `n`, that are not hidden.
    pub open spec fn shown_containers(self, n: int) -> Seq<usize>
        decreases n,
    {
        if n <= 0 {
            Seq::empty()
        } else {
            let low = self.shown_containers(n - 1);
            if self.show_stopped || self.containers[n - 1].state.live() {
                low.push((n - 1) as usize)
            } else {
                low
            }
        }
    }

    /// The resources a tab's list is made from.
    pub open spec fn candidates(self, tab: Tab) -> Seq<usize> {
        if tab == Tab::Containers {
            self.shown_containers(self.containers.len() as int)
        } else {
            Seq::new(self.count(tab), |i: int| i as usize)
        }
    }

    /// What the filter sees of a resource.
    pub open spec fn search_key(self, tab: Tab, i: int) -> Seq<char> {
        match tab {
            Tab::Containers => container_key(self.containers[i]),
            Tab::Images => image_key(self.images[i]),
            Tab::Volumes => self.volumes[i].name,
            Tab::Networks => self.networks[i].name + " "@ + self.networks[i].driver,
        }
    }

    // -- sorting -------------------------------------------------------------

    /// What a container is sorted by: running first, busiest first, largest
    /// first, newest first, or by name. Ties go by name.
    pub open spec fn container_order(self, sort: Sort, i: int) -> KeyView {
        let c = self.containers[i];
        match sort {
            Sort::State => KeyView { major: c.state.rank(), first: c.name, second: Seq::empty() },
            Sort::Cpu => KeyView {
                major: match self.stat(c.id) {
                    Some(s) => -(s.cpu_percent.bits as int),
                    None => 1,
                },
                first: c.name,
                second: Seq::empty(),
            },
            Sort::Mem => KeyView {
                major: match self.stat(c.id) {
                    Some(s) => -(s.mem_bytes as int),
                    None => 0,
                },
                first: c.name,
                second: Seq::empty(),
            },
            Sort::Created => number_key(-(c.created as int)),
            _ => text_key(c.name),
        }
    }

    /// What an image is sorted by.
    pub open spec fn image_order(self, sort: Sort, i: int) -> KeyView {
        let img = self.images[i];
        match sort {
            Sort::Size => number_key(-(img.size as int)),
            Sort::Created => number_key(-(img.created as int)),
            _ => text_key(reference_text(img)),
        }
    }

    /// What a volume is sorted by.
    pub open spec fn volume_order(self, sort: Sort, i: int) -> KeyView {
        let vol = self.volumes[i];
        match sort {
            Sort::Size => number_key(
                match vol.size {
                    Some(n) => -(n as int),
                    None => 1,
                },
            ),
            Sort::Created => number_key(
                match vol.created {
                    Some(t) => -(t as int),
                    None => UNDATED as int,
                },
            ),
            _ => text_key(vol.name),
        }
    }

    /// What a network is sorted by.
    pub open spec fn network_order(self, sort: Sort, i: int) -> KeyView {
        let net = self.networks[i];
        match sort {
            Sort::Driver => KeyView { major: 0, first: net.driver, second: net.name },
            Sort::Created => number_key(
                match net.created {
                    Some(t) => -(t as int),
                    None => UNDATED as int,
                },
            ),
            _ => text_key(net.name),
        }
    }

    /// What a resource is sorted by.
    pub open spec fn order_key(self, tab: Tab, sort: Sort, i: int) -> KeyView {
        match tab {
            Tab::Containers => self.container_order(sort, i),
            Tab::Images => self.image_order(sort, i),
            Tab::Volumes => self.volume_order(sort, i),
            Tab::Networks => self.network_order(sort, i),
        }
    }

    /// The order of a tab's list.
    pub open spec fn by_column(self, tab: Tab, sort: Sort) -> spec_fn(usize) -> KeyView {
        |i: usize| self.order_key(tab, sort, i as int)
    }

    // -- listing -------------------------------------------------------------

    /// The candidates that match `needle`, best match first.
    pub open spec fn matching(self, tab: Tab, needle: Seq<char>) -> Seq<usize> {
        let cands = self.candidates(tab);
        ranking(
            cands.map_values(|i: usize| self.search_key(tab, i as int)),
            needle,
        ).map_values(|p: usize| cands[p as int])
    }

    /// The resources a tab lists, in order. With an active filter the fuzzy
    /// ranking *is* the order; imposing a sort on top would bury the best match.
    #[verifier::opaque]
    pub open spec fn listed(self, tab: Tab) -> Seq<usize> {
        let needle = self.filter.at(tab).value;
        if needle.len() == 0 {
            let sorted = sorted_by(
                self.candidates(tab),
                self.by_column(tab, self.sort_of(tab)),
            );
            if self.sort_reverse.at(tab) {
                sorted.reverse()
            } else {
                sorted
            }
        } else {
            self.matching(tab, needle)
        }
    }

    // -- selection -----------------------------------------------------------

    /// Whether some row of the view, from `k` on, is the resource `id`.
    pub open spec fn lists(self, id: Seq<char>, k: int) -> bool
        decreases self.rows().len() - k,
    {
        if k >= self.rows().len() {
            false
        } else {
            match self.rows()[k] {
                ViewRow::Item(i) => self.key_at(self.tab, i as int) == Some(id) || self.lists(
                    id,
                    k + 1,
                ),
                ViewRow::Group(_) => self.lists(id, k + 1),
            }
        }
    }

    /// The first resource in the view, from row `k` on.
    pub open spec fn first_item(self, k: int) -> Option<usize>
        decreases self.rows().len() - k,
    {
        if k >= self.rows().len() {
            None
        } else {
            match self.rows()[k] {
                ViewRow::Item(i) => Some(i),
                ViewRow::Group(_) => self.first_item(k + 1),
            }
        }
    }

    /// Whether the selected resource is still listed.
    #[verifier::opaque]
    pub open spec fn selection_stays(self) -> bool {
        match self.selected.at(self.tab) {
            Some(id) => self.lists(id, 0),
            None => false,
        }
    }

    /// The identity of the first resource in the view.
    #[verifier::opaque]
    pub open spec fn first_key(self) -> Option<Seq<char>> {
        match self.first_item(0) {
            Some(i) => self.key_at(self.tab, i as int),
            None => None,
        }
    }

    /// The stack whose header is the first row.
    #[verifier::opaque]
    pub open spec fn first_header(self) -> Option<Seq<char>> {
        if self.rows().len() > 0 {
            match self.rows()[0] {
                ViewRow::Group(g) => if g < self.groups.len() {
                    Some(self.groups[g as int].key)
                } else {
                    None
                },
                ViewRow::Item(_) => None,
            }
        } else {
            None
        }
    }

    /// The state with a resource selected if there is one: the one that was, if
    /// it is still listed, or else the first. Every stack folded shut leaves no
    /// rows to select, so the cursor falls back to the first header rather than
    /// leaving the list with none at all.
    pub open spec fn with_item_selected(self) -> AppState {
        if self.selection_stays() {
            self
        } else {
            AppState {
                selected: self.selected.with(self.tab, self.first_key()),
                selected_group: if self.first_key() is None && self.first_header() is Some {
                    self.first_header()
                } else {
                    self.selected_group
                },
                ..self
            }
        }
    }

    /// Whether the cursor is on a header that is still there. A header selection
    /// outlives a refresh, but not the stack going away or grouping being
    /// switched off.
    #[verifier::opaque]
    pub open spec fn header_stays(self) -> bool {
        match self.selected_group {
            Some(key) => self.grouping() && group_by_key(self.groups, key) is Some,
            None => false,
        }
    }

    /// The state with something selected that still exists.
    #[verifier::opaque]
    pub open spec fn with_selection(self) -> AppState {
        if self.header_stays() {
            self
        } else {
            (AppState { selected_group: None, ..self }).with_item_selected()
        }
    }

    // -- rebuilding ----------------------------------------------------------

    /// The rows of a tab.
    #[verifier::opaque]
    pub open spec fn rows_for(self, tab: Tab) -> Seq<ViewRow> {
        if tab == Tab::Containers && self.group_by_stack {
            grouped_rows(self.containers, self.listed(tab), self.collapsed)
        } else {
            item_rows(self.listed(tab))
        }
    }

    /// The stacks of the containers tab; none unless it is grouped.
    #[verifier::opaque]
    pub open spec fn stacks_listed(self) -> Seq<GroupView> {
        if self.group_by_stack {
            headers(self.containers, self.listed(Tab::Containers), self.collapsed)
        } else {
            Seq::empty()
        }
    }

    /// The state with a tab's rows worked out afresh.
    pub open spec fn with_rows(self, tab: Tab) -> AppState {
        AppState {
            views: self.views.with(tab, self.rows_for(tab)),
            groups: if tab == Tab::Containers {
                self.stacks_listed()
            } else {
                self.groups
            },
            ..self
        }
    }

    /// The state with a tab's view rebuilt, and the selection with it when it
    /// is the tab on screen.
    #[verifier::opaque]
    pub open spec fn rebuilt(self, tab: Tab) -> AppState {
        let v = self.with_rows(tab);
        if tab == self.tab {
            v.with_selection()
        } else {
            v
        }
    }

    /// The state with every view rebuilt.
    #[verifier::opaque]
    pub open spec fn all_rebuilt(self) -> AppState {
        self.rebuilt(Tab::Containers).rebuilt(Tab::Images).rebuilt(Tab::Volumes).rebuilt(
            Tab::Networks,
        )
    }
}

impl App {
    fn candidates(&self, tab: Tab) -> (out: Vec<usize>)
        ensures
            out@ == self.state().candidates(tab),
            in_bounds(out@, self.state().count(tab)),
    {
        reveal(part);
        let ghost v = self.state();
        let mut out: Vec<usize> = Vec::new();
        let n = self.count(tab);
        let mut i: usize = 0;
        while i < n
            invariant
                i <= n,
                n == v.count(tab),
                v == self.state(),
                v.containers == self.containers.deep_view(),
                tab == Tab::Containers ==> out@ == v.shown_containers(i as int),
                tab != Tab::Containers ==> out@ == Seq::new(i as nat, |k: int| k as usize),
                in_bounds(out@, i as nat),
            decreases n - i,
        {
            if tab == Tab::Containers {
                assert(v.containers[i as int] == self.containers@[i as int].deep_view());
                if self.show_stopped || self.containers[i].state.is_live() {
                    out.push(i);
                }
            } else {
                out.push(i);
                assert(out@ =~= Seq::new((i + 1) as nat, |k: int| k as usize));
            }
            i += 1;
        }
        out
    }

    fn search_key(&self, tab: Tab, i: usize) -> (out: String)
        requires
            i < self.state().count(tab),
        ensures
            out@ == self.state().search_key(tab, i as int),
    {
        reveal(part);
        match tab {
            Tab::Containers => self.containers[i].search_key(),
            Tab::Images => self.images[i].search_key(),
            Tab::Volumes => self.volumes[i].search_key(),
            Tab::Networks => self.networks[i].search_key(),
        }
    }

    /// The candidates that match `needle`, best match first.
    pub fn filter_indices(&self, tab: Tab, needle: &str) -> (out: Vec<usize>)
        ensures
            out@ == self.state().matching(tab, needle@),
            in_bounds(out@, self.state().count(tab)),
    {
        reveal(part);
        let ghost v = self.state();
        let ghost text = |i: usize| v.search_key(tab, i as int);
        let cands = self.candidates(tab);
        let mut keys: Vec<String> = Vec::new();
        let mut i: usize = 0;
        assert(keys.deep_view() =~= cands@.take(0).map_values(text));
        while i < cands.len()
            invariant
                i <= cands.len(),
                v == self.state(),
                text == (|i: usize| v.search_key(tab, i as int)),
                in_bounds(cands@, v.count(tab)),
                keys.deep_view() == cands@.take(i as int).map_values(text),
            decreases cands.len() - i,
        {
            assert(cands@[i as int] < v.count(tab));
            put(&mut keys, self.search_key(tab, cands[i]));
            assert(cands@.take(i + 1).map_values(text) =~= cands@.take(i as int).map_values(
                text,
            ).push(text(cands@[i as int])));
            i += 1;
        }
        assert(cands@.take(cands@.len() as int) =~= cands@);
        let ghost texts = cands@.map_values(text);
        let order = rank_keys(&keys, needle);
        let ghost pick = |p: usize| cands@[p as int];
        let mut out: Vec<usize> = Vec::new();
        let mut j: usize = 0;
        assert(out@ =~= order@.take(0).map_values(pick));
        while j < order.len()
            invariant
                j <= order.len(),
                pick == (|p: usize| cands@[p as int]),
                in_bounds(cands@, v.count(tab)),
                texts.len() == cands.len(),
                order@ == ranking(texts, needle@),
                out@ == order@.take(j as int).map_values(pick),
                in_bounds(out@, v.count(tab)),
            decreases order.len() - j,
        {
            proof {
                assert(order@.contains(order@[j as int]));
                ranking_is_exact(texts, needle@, order@[j as int]);
            }
            let p: usize = order[j];
            assert(cands@[p as int] < v.count(tab));
            out.push(cands[p]);
            assert(order@.take(j + 1).map_values(pick) =~= order@.take(j as int).map_values(
                pick,
            ).push(pick(p)));
            j += 1;
        }
        assert(order@.take(order@.len() as int) =~= order@);
        out
    }

    fn container_order(&self, sort: Sort, i: usize) -> (out: SortKey)
        requires
            i < self.containers.len(),
        ensures
            out@ == self.state().container_order(sort, i as int),
    {
        reveal(part);
        let c = &self.containers[i];
        assert(self.state().containers[i as int] == c.deep_view());
        match sort {
            Sort::State => SortKey {
                major: c.state.order(),
                first: owned(&c.name),
                second: String::new(),
            },
            Sort::Cpu => {
                let major: i128 = match self.latest_stat(&c.id) {
                    Some(s) => -(s.cpu_percent.bits as i128),
                    None => 1,
                };
                SortKey { major, first: owned(&c.name), second: String::new() }
            },
            Sort::Mem => {
                let major: i128 = match self.latest_stat(&c.id) {
                    Some(s) => -(s.mem_bytes as i128),
                    None => 0,
                };
                SortKey { major, first: owned(&c.name), second: String::new() }
            },
            Sort::Created => SortKey::number(-(c.created as i128)),
            _ => SortKey::text(owned(&c.name)),
        }
    }

    fn image_order(&self, sort: Sort, i: usize) -> (out: SortKey)
        requires
            i < self.images.len(),
        ensures
            out@ == self.state().image_order(sort, i as int),
    {
        reveal(part);
        let img = &self.images[i];
        assert(self.state().images[i as int] == img.deep_view());
        match sort {
            Sort::Size => SortKey::number(-(img.size as i128)),
            Sort::Created => SortKey::number(-(img.created as i128)),
            _ => SortKey::text(img.reference()),
        }
    }

    fn volume_order(&self, sort: Sort, i: usize) -> (out: SortKey)
        requires
            i < self.volumes.len(),
        ensures
            out@ == self.state().volume_order(sort, i as int),
    {
        reveal(part);
        let vol = &self.volumes[i];
        assert(self.state().volumes[i as int] == vol.deep_view());
        match sort {
            Sort::Size => SortKey::number(
                match vol.size {
                    Some(n) => -(n as i128),
                    None => 1,
                },
            ),
            Sort::Created => SortKey::number(
                match vol.created {
                    Some(t) => -(t as i128),
                    None => UNDATED,
                },
            ),
            _ => SortKey::text(owned(&vol.name)),
        }
    }

    fn network_order(&self, sort: Sort, i: usize) -> (out: SortKey)
        requires
            i < self.networks.len(),
        ensures
            out@ == self.state().network_order(sort, i as int),
    {
        reveal(part);
        let net = &self.networks[i];
        assert(self.state().networks[i as int] == net.deep_view());
        match sort {
            Sort::Driver => SortKey {
                major: 0,
                first: owned(&net.driver),
                second: owned(&net.name),
            },
            Sort::Created => SortKey::number(
                match net.created {
                    Some(t) => -(t as i128),
                    None => UNDATED,
                },
            ),
            _ => SortKey::text(owned(&net.name)),
        }
    }

    /// Put a tab's resources in the order of a column.
    pub fn sort_indices(&self, tab: Tab, sort: Sort, items: Vec<usize>) -> (out: Vec<usize>)
        requires
            in_bounds(items@, self.state().count(tab)),
        ensures
            out@ == sorted_by(items@, self.state().by_column(tab, sort)),
            in_bounds(out@, self.state().count(tab)),
    {
        reveal(part);
        let ghost v = self.state();
        let ghost key = v.by_column(tab, sort);
        let mut keys: Vec<SortKey> = Vec::new();
        let mut k: usize = 0;
        while k < items.len()
            invariant
                k <= items.len(),
                v == self.state(),
                key == v.by_column(tab, sort),
                in_bounds(items@, v.count(tab)),
                v.count(Tab::Containers) == self.containers.len(),
                v.count(Tab::Images) == self.images.len(),
                v.count(Tab::Volumes) == self.volumes.len(),
                v.count(Tab::Networks) == self.networks.len(),
                keys.len() == k,
                forall|j: int| 0 <= j < k ==> #[trigger] keys@[j]@ == key(items@[j]),
            decreases items.len() - k,
        {
            assert(items@[k as int] < v.count(tab));
            let i: usize = items[k];
            keys.push(
                match tab {
                    Tab::Containers => self.container_order(sort, i),
                    Tab::Images => self.image_order(sort, i),
                    Tab::Volumes => self.volume_order(sort, i),
                    Tab::Networks => self.network_order(sort, i),
                },
            );
            k += 1;
        }
        proof {
            sorted_in_bounds(items@, key, v.count(tab));
        }
        sort_by_keys(items, keys, Ghost(key))
    }

    fn reversed(items: Vec<usize>) -> (out: Vec<usize>)
        ensures
            out@ == items@.reverse(),
    {
        let mut out: Vec<usize> = Vec::new();
        let mut k: usize = items.len();
        while k > 0
            invariant
                k <= items.len(),
                out.len() == items.len() - k,
                forall|j: int| 0 <= j < out.len() ==> #[trigger] out@[j] == items@[items.len() - 1 - j],
            decreases k,
        {
            k -= 1;
            out.push(items[k]);
        }
        assert(out@ =~= items@.reverse());
        out
    }

    fn listed(&self, tab: Tab) -> (out: Vec<usize>)
        requires
            self.state().sound(),
        ensures
            out@ == self.state().listed(tab),
            in_bounds(out@, self.state().count(tab)),
    {
        reveal(part);
        reveal(AppState::listed);
        let sort = self.sort_on(tab);
        if !self.filter.get(tab).is_empty() {
            return self.filter_indices(tab, &self.filter.get(tab).value);
        }
        let sorted = self.sort_indices(tab, sort, self.candidates(tab));
        if *self.sort_reverse.get(tab) {
            let ghost before = sorted@;
            let out = App::reversed(sorted);
            assert forall|k: int| 0 <= k < out@.len() implies #[trigger] out@[k]
                < self.state().count(tab) by {
                assert(out@[k] == before[before.len() - 1 - k]);
            }
            out
        } else {
            sorted
        }
    }

    fn is_listed(&self, id: &str) -> (out: bool)
        ensures
            out == self.state().lists(id@, 0),
    {
        let ghost v = self.state();
        let rows = self.view();
        let mut k: usize = 0;
        while k < rows.len()
            invariant
                k <= rows.len(),
                v == self.state(),
                rows@ == v.rows(),
                v.lists(id@, 0) == v.lists(id@, k as int),
            decreases rows.len() - k,
        {
            if let ViewRow::Item(i) = rows[k] {
                if let Some(key) = self.row_key_at(self.tab, i) {
                    if same(&key, id) {
                        return true;
                    }
                }
            }
            k += 1;
        }
        false
    }

    fn first_item(&self) -> (out: Option<usize>)
        ensures
            out == self.state().first_item(0),
    {
        let ghost v = self.state();
        let rows = self.view();
        let mut k: usize = 0;
        while k < rows.len()
            invariant
                k <= rows.len(),
                v == self.state(),
                rows@ == v.rows(),
                v.first_item(0) == v.first_item(k as int),
            decreases rows.len() - k,
        {
            if let ViewRow::Item(i) = rows[k] {
                return Some(i);
            }
            k += 1;
        }
        None
    }

    fn first_key(&self) -> (out: Option<String>)
        ensures
            out.deep_view() == self.state().first_key(),
    {
        reveal(AppState::first_key);
        match self.first_item() {
            Some(i) => self.row_key_at(self.tab, i),
            None => None,
        }
    }

    fn first_header(&self) -> (out: Option<String>)
        ensures
            out.deep_view() == self.state().first_header(),
    {
        reveal(part);
        reveal(AppState::first_header);
        let rows = self.view();
        if rows.len() > 0 {
            if let ViewRow::Group(g) = rows[0] {
                if g < self.groups.len() {
                    return Some(owned(&self.groups[g].key));
                }
            }
        }
        None
    }

    fn selection_stays(&self) -> (out: bool)
        ensures
            out == self.state().selection_stays(),
    {
        reveal(part);
        reveal(AppState::selection_stays);
        match self.selected.get(self.tab) {
            Some(id) => self.is_listed(id),
            None => false,
        }
    }

    fn select_key(&mut self, key: Option<String>)
        ensures
            final(self).state() == (AppState {
                selected: old(self).state().selected.with(old(self).tab, key.deep_view()),
                ..old(self).state()
            }),
    {
        reveal(part);
        let tab = self.tab;
        self.selected.put(tab, key);
    }

    fn select_header(&mut self, key: String)
        ensures
            final(self).state() == (AppState {
                selected_group: Some(key@),
                ..old(self).state()
            }),
    {
        reveal(part);
        self.selected_group = Some(key);
    }

    fn select_item(&mut self)
        ensures
            final(self).state() == old(self).state().with_item_selected(),
    {
        if self.selection_stays() {
            return;
        }
        let chosen = self.first_key();
        let header = self.first_header();
        match (&chosen, header) {
            (None, Some(key)) => {
                self.select_header(key);
            },
            _ => {},
        }
        self.select_key(chosen);
    }

    fn header_stays(&self) -> (out: bool)
        ensures
            out == self.state().header_stays(),
    {
        reveal(part);
        reveal(AppState::header_stays);
        self.selected_group.is_some() && self.grouping() && self.current_group().is_some()
    }

    fn leave_header(&mut self)
        ensures
            final(self).state() == (AppState { selected_group: None, ..old(self).state() }),
    {
        reveal(part);
        self.selected_group = None;
    }

    /// Make sure something is selected, and that it still exists.
    pub fn ensure_selection(&mut self)
        ensures
            final(self).state() == old(self).state().with_selection(),
    {
        reveal(AppState::with_selection);
        // A header selection outlives a refresh, but not the stack going away or
        // grouping being switched off.
        if self.header_stays() {
            return;
        }
        self.leave_header();
        self.select_item();
    }

    fn flat_rows(items: &Vec<usize>) -> (out: Vec<ViewRow>)
        ensures
            out@ == item_rows(items@),
    {
        let mut rows: Vec<ViewRow> = Vec::new();
        let mut k: usize = 0;
        assert(rows@ =~= item_rows(items@.take(0)));
        while k < items.len()
            invariant
                k <= items.len(),
                rows@ == item_rows(items@.take(k as int)),
            decreases items.len() - k,
        {
            rows.push(ViewRow::Item(items[k]));
            assert(item_rows(items@.take(k + 1)) =~= item_rows(items@.take(k as int)).push(
                ViewRow::Item(items@[k as int]),
            ));
            k += 1;
        }
        assert(items@.take(items@.len() as int) =~= items@);
        rows
    }

    fn set_rows(&mut self, tab: Tab, rows: Vec<ViewRow>)
        ensures
            final(self).state() == (AppState {
                views: old(self).state().views.with(tab, rows@),
                ..old(self).state()
            }),
    {
        self.views.set(tab, rows);
    }

    fn fresh_rows(&self, tab: Tab) -> (out: (Vec<ViewRow>, Vec<Group>))
        requires
            self.state().sound(),
        ensures
            out.0@ == self.state().rows_for(tab),
            tab == Tab::Containers ==> out.1.deep_view() == self.state().stacks_listed(),
            in_bounds(self.state().listed(tab), self.state().count(tab)),
            tab == Tab::Containers ==> self.state().stacks_listed().len() <= usize::MAX,
    {
        reveal(part);
        reveal(AppState::rows_for);
        reveal(AppState::stacks_listed);
        let items = self.listed(tab);
        if tab == Tab::Containers && self.group_by_stack {
            let out = group_rows(&self.containers, items, &self.collapsed);
            assert(out.1.deep_view().len() == out.1.len());
            out
        } else {
            let none: Vec<Group> = Vec::new();
            assert(none.deep_view() =~= Seq::<GroupView>::empty());
            (App::flat_rows(&items), none)
        }
    }

    fn set_groups(&mut self, groups: Vec<Group>)
        ensures
            final(self).state() == (AppState {
                groups: groups.deep_view(),
                ..old(self).state()
            }),
    {
        reveal(part);
        self.groups = groups;
    }

    fn list_rows(&mut self, tab: Tab)
        requires
            old(self).state().sound(),
        ensures
            final(self).state() == old(self).state().with_rows(tab),
            in_bounds(old(self).state().listed(tab), old(self).state().count(tab)),
            tab == Tab::Containers ==> old(self).state().stacks_listed().len() <= usize::MAX,
    {
        let (rows, groups) = self.fresh_rows(tab);
        if tab == Tab::Containers {
            self.set_groups(groups);
        }
        self.set_rows(tab, rows);
    }

    /// Work out afresh which rows a tab shows.
    pub fn rebuild_view(&mut self, tab: Tab)
        requires
            old(self).state().sound(),
        ensures
            final(self).state() == old(self).state().rebuilt(tab),
            final(self).state().sound(),
            final(self).state().rows_exist(tab),
            forall|other: Tab| #[trigger]
                old(self).state().rows_exist(other) && (other != Tab::Containers || tab
                    != Tab::Containers) ==> final(self).state().rows_exist(other),
            (forall|other: Tab|
                other != tab ==> #[trigger] old(self).state().rows_exist(other))
                ==> final(self).wf(),
    {
        reveal(AppState::rebuilt);
        let ghost v = self.state();
        self.list_rows(tab);
        if tab == self.tab {
            self.ensure_selection();
        }
        proof {
            rebuilding_keeps_rows(v, tab);
            if forall|other: Tab| other != tab ==> #[trigger] v.rows_exist(other) {
                reveal(AppState::wf);
                let w = self.state();
                assert forall|other: Tab| #[trigger] w.rows_exist(other) by {
                    if other != tab {
                        assert(v.rows_exist(other));
                    }
                }
            }
        }
    }

    /// Work out afresh which rows every tab shows.
    pub fn rebuild_all_views(&mut self)
        requires
            old(self).state().sound(),
        ensures
            final(self).state() == old(self).state().all_rebuilt(),
            final(self).wf(),
    {
        reveal(AppState::all_rebuilt);
        self.rebuild_view(Tab::Containers);
        self.rebuild_view(Tab::Images);
        self.rebuild_view(Tab::Volumes);
        self.rebuild_view(Tab::Networks);
        assert forall|tab: Tab| #[trigger] self.state().rows_exist(tab) by {
            assert(tab == Tab::Containers || tab == Tab::Images || tab == Tab::Volumes || tab
                == Tab::Networks);
        }
    }
}

/// Whether every index is below `n`.
pub open spec fn in_bounds(items: Seq<usize>, n: nat) -> bool {
    forall|k: int| 0 <= k < items.len() ==> #[trigger] items[k] < n
}

proof fn sorted_in_bounds(items: Seq<usize>, key: spec_fn(usize) -> KeyView, n: nat)
    requires
        in_bounds(items, n),
    ensures
        in_bounds(sorted_by(items, key), n),
{
    let sorted = sorted_by(items, key);
    assert forall|k: int| 0 <= k < sorted.len() implies #[trigger] sorted[k] < n by {
        assert(sorted.contains(sorted[k]));
        sorting_keeps_members(items, key, sorted[k]);
        let j = choose|j: int| 0 <= j < items.len() && items[j] == sorted[k];
        assert(items[j] < n);
    }
}

/// Selecting something changes neither the lists nor the log pane.
pub proof fn selecting_keeps_lists(v: AppState)
    ensures
        same_lists(v, v.with_selection()),
        v.with_selection().logs == v.logs,
        v.with_selection().hits == v.hits,
{
    reveal(AppState::with_selection);
}

proof fn same_rows_exist(v: AppState, w: AppState, tab: Tab)
    requires
        same_lists(v, w),
        v.rows_exist(tab),
    ensures
        w.rows_exist(tab),
{
    assert forall|k: int| 0 <= k < w.views.at(tab).len() implies match #[trigger] w.views.at(
        tab,
    )[k] {
        ViewRow::Item(i) => i < w.count(tab),
        ViewRow::Group(g) => tab == Tab::Containers && g < w.groups.len(),
    } by {
        assert(v.views.at(tab)[k] == w.views.at(tab)[k]);
    }
}

proof fn new_rows_exist(v: AppState, tab: Tab)
    requires
        in_bounds(v.listed(tab), v.count(tab)),
        tab == Tab::Containers ==> v.stacks_listed().len() <= usize::MAX,
    ensures
        v.with_rows(tab).rows_exist(tab),
{
    reveal(AppState::rows_for);
    reveal(AppState::stacks_listed);
    let w = v.with_rows(tab);
    let items = v.listed(tab);
    assert forall|k: int| 0 <= k < w.views.at(tab).len() implies match #[trigger] w.views.at(
        tab,
    )[k] {
        ViewRow::Item(i) => i < w.count(tab),
        ViewRow::Group(g) => tab == Tab::Containers && g < w.groups.len(),
    } by {
        if tab == Tab::Containers && v.group_by_stack {
            rows_point_at_something(
                v.containers,
                items,
                v.collapsed,
                stacks(v.containers, items).len() as int,
                k,
            );
            if let ViewRow::Item(i) = w.views.at(tab)[k] {
                let j = choose|j: int| 0 <= j < items.len() && items[j] == i;
                assert(items[j] < v.containers.len());
            }
        } else {
            assert(w.views.at(tab)[k] == ViewRow::Item(items[k]));
        }
    }
}

proof fn rebuilding_keeps_rows(v: AppState, tab: Tab)
    requires
        v.sound(),
        in_bounds(v.listed(tab), v.count(tab)),
        tab == Tab::Containers ==> v.stacks_listed().len() <= usize::MAX,
    ensures
        v.rebuilt(tab).sound(),
        v.rebuilt(tab).rows_exist(tab),
        forall|other: Tab| #[trigger]
            v.rows_exist(other) && (other != Tab::Containers || tab != Tab::Containers)
                ==> v.rebuilt(tab).rows_exist(other),
{
    reveal(AppState::rebuilt);
    let w = v.with_rows(tab);
    let end = v.rebuilt(tab);
    new_rows_exist(v, tab);
    selecting_keeps_lists(w);
    assert(same_lists(w, end));
    same_rows_exist(w, end, tab);
    assert forall|other: Tab| #[trigger]
        v.rows_exist(other) && (other != Tab::Containers || tab
            != Tab::Containers) implies end.rows_exist(other) by {
        if other != tab {
            assert(w.views.at(other) == v.views.at(other));
            assert forall|k: int| 0 <= k < w.views.at(other).len() implies match #[trigger] w.views.at(
                other,
            )[k] {
                ViewRow::Item(i) => i < w.count(other),
                ViewRow::Group(g) => other == Tab::Containers && g < w.groups.len(),
            } by {
                assert(v.views.at(other)[k] == w.views.at(other)[k]);
            }
            same_rows_exist(w, end, other);
        }
    }
    assert forall|t: Tab| (#[trigger] end.sort_index.at(t)) < cycle_of(t).len() by {
        assert(v.sort_index.at(t) < cycle_of(t).len());
    }
}

} // verus!
