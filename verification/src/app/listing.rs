//! What whoever reads a list can rely on: what typing finds, and what comes first.

use vstd::prelude::*;

use crate::app::laws::{lists_are_exact, lists_are_in_order};
use crate::app::state::AppState;
use crate::app::{Sort, Tab, ViewRow};
use crate::docker::model::{
    container_key, image_key, reference_text, ContainerView, ImageView, State,
};
use crate::order::{is_sorted, key_le};
use crate::text::{lower, text_le, text_le_total};
use crate::util::format::short;
use crate::util::fuzzy::{holds_folded, literal_hits_win_the_band, match_of, SUBSTRING_BAND};

verus! {

broadcast use vstd::string::group_string_axioms;

// ---------------------------------------------------------------------------
// What typing finds
// ---------------------------------------------------------------------------

/// Whether `text` holds `needle` somewhere, in one piece, case aside.
pub open spec fn occurs(text: Seq<char>, needle: Seq<char>) -> bool {
    exists|at: int| holds_folded(text, needle, at)
}

proof fn occurs_between(front: Seq<char>, text: Seq<char>, back: Seq<char>, needle: Seq<char>)
    requires
        occurs(text, needle),
    ensures
        occurs(front + text + back, needle),
{
    let at = choose|at: int| holds_folded(text, needle, at);
    let whole = front + text + back;
    assert forall|i: int| 0 <= i < needle.len() implies lower(
        #[trigger] whole[front.len() + at + i],
    ) == lower(needle[i]) by {
        assert(whole[front.len() + at + i] == text[at + i]);
    }
    assert(holds_folded(whole, needle, front.len() + at));
}

proof fn occurs_in_one_part(a: Seq<char>, b: Seq<char>, needle: Seq<char>)
    requires
        occurs(a + seq![' '] + b, needle),
        !needle.contains(' '),
        needle.len() > 0,
    ensures
        occurs(a, needle) || occurs(b, needle),
{
    let whole = a + seq![' '] + b;
    let at = choose|at: int| holds_folded(whole, needle, at);
    let gap = a.len() as int;
    if at + needle.len() <= gap {
        assert forall|i: int| 0 <= i < needle.len() implies lower(#[trigger] a[at + i]) == lower(
            needle[i],
        ) by {
            assert(whole[at + i] == a[at + i]);
        }
        assert(holds_folded(a, needle, at));
    } else if at > gap {
        assert forall|i: int| 0 <= i < needle.len() implies lower(
            #[trigger] b[at - gap - 1 + i],
        ) == lower(needle[i]) by {
            assert(whole[at + i] == b[at - gap - 1 + i]);
        }
        assert(holds_folded(b, needle, at - gap - 1));
    } else {
        let i = gap - at;
        assert(lower(whole[at + i]) == lower(needle[i]));
        assert(whole[gap] == ' ');
        assert(needle[i] == ' ');
    }
}

/// A container is found by any part of its name, of its image, of its short id or of
/// its stack's name: the match is a literal one.
pub proof fn containers_are_found_by_their_parts(c: ContainerView, needle: Seq<char>)
    requires
        needle.len() > 0,
        occurs(c.name, needle) || occurs(c.image, needle) || occurs(short(c.id), needle) || (
        c.stack matches Some(stack) && occurs(stack, needle)),
    ensures
        match_of(container_key(c), needle) is Some,
        (match_of(container_key(c), needle)->0).score >= SUBSTRING_BAND,
{
    let key = container_key(c);
    let none = Seq::<char>::empty();
    reveal_strlit(" ");
    let tail = match c.stack {
        Some(stack) => " "@ + stack,
        None => none,
    };
    if occurs(c.name, needle) {
        let back = " "@ + c.image + " "@ + short(c.id) + tail;
        occurs_between(none, c.name, back, needle);
        assert(none + c.name + back =~= key);
    } else if occurs(c.image, needle) {
        let back = " "@ + short(c.id) + tail;
        occurs_between(c.name + " "@, c.image, back, needle);
        assert(c.name + " "@ + c.image + back =~= key);
    } else if occurs(short(c.id), needle) {
        let front = c.name + " "@ + c.image + " "@;
        occurs_between(front, short(c.id), tail, needle);
        assert(front + short(c.id) + tail =~= key);
    } else {
        let stack = c.stack->0;
        let front = c.name + " "@ + c.image + " "@ + short(c.id) + " "@;
        occurs_between(front, stack, none, needle);
        assert(front + stack + none =~= key);
    }
    let at = choose|at: int| holds_folded(key, needle, at);
    literal_hits_win_the_band(key, needle, at);
}

/// A container is not found literally by anything else: a word that its search text
/// holds is part of its name, of its image, of its short id or of its stack's name.
pub proof fn containers_are_found_by_nothing_else(c: ContainerView, needle: Seq<char>)
    requires
        needle.len() > 0,
        !needle.contains(' '),
        occurs(container_key(c), needle),
    ensures
        occurs(c.name, needle) || occurs(c.image, needle) || occurs(short(c.id), needle) || (
        c.stack matches Some(stack) && occurs(stack, needle)),
{
    reveal_strlit(" ");
    assert(" "@ =~= seq![' ']);
    let two = c.name + seq![' '] + c.image;
    let own = two + seq![' '] + short(c.id);
    if let Some(stack) = c.stack {
        assert(container_key(c) =~= own + seq![' '] + stack);
        occurs_in_one_part(own, stack, needle);
    } else {
        assert(container_key(c) =~= own);
    }
    if occurs(own, needle) {
        occurs_in_one_part(two, short(c.id), needle);
        if occurs(two, needle) {
            occurs_in_one_part(c.name, c.image, needle);
        }
    }
}

/// An image is found by any part of its reference or of its short id, and literally by
/// nothing else.
pub proof fn images_are_found_by_their_parts(i: ImageView, needle: Seq<char>)
    requires
        needle.len() > 0,
    ensures
        occurs(reference_text(i), needle) || occurs(short(i.id), needle) ==> match_of(
            image_key(i),
            needle,
        ) is Some && (match_of(image_key(i), needle)->0).score >= SUBSTRING_BAND,
        !i.dangling && (occurs(i.repository, needle) || occurs(i.tag, needle)) ==> match_of(
            image_key(i),
            needle,
        ) is Some && (match_of(image_key(i), needle)->0).score >= SUBSTRING_BAND,
        !needle.contains(' ') && occurs(image_key(i), needle) ==> occurs(reference_text(i), needle)
            || occurs(short(i.id), needle),
{
    let key = image_key(i);
    let none = Seq::<char>::empty();
    reveal_strlit(" ");
    assert(" "@ =~= seq![' ']);
    if !i.dangling && occurs(i.repository, needle) {
        occurs_between(none, i.repository, ":"@ + i.tag, needle);
        assert(none + i.repository + (":"@ + i.tag) =~= reference_text(i));
    }
    if !i.dangling && occurs(i.tag, needle) {
        occurs_between(i.repository + ":"@, i.tag, none, needle);
        assert(i.repository + ":"@ + i.tag + none =~= reference_text(i));
    }
    if occurs(reference_text(i), needle) {
        let back = " "@ + short(i.id);
        occurs_between(none, reference_text(i), back, needle);
        assert(none + reference_text(i) + back =~= key);
    }
    if occurs(short(i.id), needle) {
        occurs_between(reference_text(i) + " "@, short(i.id), none, needle);
        assert(reference_text(i) + " "@ + short(i.id) + none =~= key);
    }
    if occurs(key, needle) {
        let at = choose|at: int| holds_folded(key, needle, at);
        literal_hits_win_the_band(key, needle, at);
        if !needle.contains(' ') {
            occurs_in_one_part(reference_text(i), short(i.id), needle);
        }
    }
}

impl AppState {
    /// Whether some text that names a resource holds what was typed: a container's
    /// name, image, short id or stack; an image's reference or short id; a volume's
    /// name; a network's name or driver.
    pub open spec fn named_by(self, tab: Tab, i: int, needle: Seq<char>) -> bool {
        match tab {
            Tab::Containers => {
                let c = self.containers[i];
                occurs(c.name, needle) || occurs(c.image, needle) || occurs(short(c.id), needle)
                    || (c.stack matches Some(stack) && occurs(stack, needle))
            },
            Tab::Images => occurs(reference_text(self.images[i]), needle) || occurs(
                short(self.images[i].id),
                needle,
            ),
            Tab::Volumes => occurs(self.volumes[i].name, needle),
            Tab::Networks => occurs(self.networks[i].name, needle) || occurs(
                self.networks[i].driver,
                needle,
            ),
        }
    }
}

/// Typing part of what names a resource keeps it on the list, unless it is a stopped
/// container and those are hidden.
pub proof fn typing_part_of_a_name_finds_it(v: AppState, tab: Tab, i: usize)
    requires
        i < v.count(tab) <= usize::MAX,
        v.filter.at(tab).value.len() > 0,
        v.named_by(tab, i as int, v.filter.at(tab).value),
        tab == Tab::Containers ==> v.show_stopped || v.containers[i as int].state.live(),
    ensures
        v.listed(tab).contains(i),
{
    let needle = v.filter.at(tab).value;
    let key = v.search_key(tab, i as int);
    match tab {
        Tab::Containers => {
            containers_are_found_by_their_parts(v.containers[i as int], needle);
        },
        Tab::Images => {
            images_are_found_by_their_parts(v.images[i as int], needle);
        },
        Tab::Volumes => {
            let at = choose|at: int| holds_folded(key, needle, at);
            literal_hits_win_the_band(key, needle, at);
        },
        Tab::Networks => {
            let n = v.networks[i as int];
            let none = Seq::<char>::empty();
            if occurs(n.name, needle) {
                occurs_between(none, n.name, " "@ + n.driver, needle);
                assert(none + n.name + (" "@ + n.driver) =~= key);
            } else {
                occurs_between(n.name + " "@, n.driver, none, needle);
                assert(n.name + " "@ + n.driver + none =~= key);
            }
            let at = choose|at: int| holds_folded(key, needle, at);
            literal_hits_win_the_band(key, needle, at);
        },
    }
    lists_are_exact(v, tab, i);
}

// ---------------------------------------------------------------------------
// What comes first
// ---------------------------------------------------------------------------

impl AppState {
    /// The memory a container was last seen to use; none without a reading.
    pub open spec fn memory_of(self, c: ContainerView) -> int {
        if self.stats.dom().contains(c.id) {
            self.stats[c.id].mem_bytes as int
        } else {
            0
        }
    }

    /// The processor share a container was last seen to use, by its bits, which order
    /// as the shares do; less than any share without a reading.
    pub open spec fn load_of(self, c: ContainerView) -> int {
        if self.stats.dom().contains(c.id) {
            self.stats[c.id].cpu_percent.bits as int
        } else {
            -1
        }
    }
}

/// A sorted list of containers, from the top: by name from A on; by state with what
/// runs first; by processor share and by memory with the busiest first; by age with
/// the newest first. Where shares, memory or states agree, names decide.
pub proof fn containers_come_in_order(v: AppState, a: int, b: int)
    requires
        v.filter.containers.value.len() == 0,
        !v.sort_reverse.containers,
        0 <= a < b < v.listed(Tab::Containers).len(),
    ensures
        ({
            let upper = v.containers[v.listed(Tab::Containers)[a] as int];
            let lower = v.containers[v.listed(Tab::Containers)[b] as int];
            let sort = v.sort_of(Tab::Containers);
            &&& sort == Sort::Name ==> text_le(upper.name, lower.name)
            &&& sort == Sort::State ==> {
                &&& upper.state == State::Running || lower.state != State::Running
                &&& lower.state.live() && !(lower.state is Stopping) ==> upper.state.live()
                &&& upper.state == lower.state ==> text_le(upper.name, lower.name)
            }
            &&& sort == Sort::Cpu ==> {
                &&& v.load_of(upper) >= v.load_of(lower)
                &&& v.load_of(upper) == v.load_of(lower) ==> text_le(upper.name, lower.name)
            }
            &&& sort == Sort::Mem ==> {
                &&& v.memory_of(upper) >= v.memory_of(lower)
                &&& v.memory_of(upper) == v.memory_of(lower) ==> text_le(upper.name, lower.name)
            }
            &&& sort == Sort::Created ==> upper.created >= lower.created
        }),
{
    neighbours_are_sorted(v, Tab::Containers, a, b);
    let upper = v.containers[v.listed(Tab::Containers)[a] as int];
    text_le_total(upper.name, upper.name);
}

/// What is up sorts before what is not, and what is gone for good last.
pub proof fn states_are_ranked()
    ensures
        State::Running.rank() < State::Restarting.rank() < State::Paused.rank()
            < State::Created.rank() < State::Stopping.rank() < State::Removing.rank()
            < State::Exited.rank() < State::Dead.rank() < State::Unknown.rank(),
{
}

proof fn neighbours_are_sorted(v: AppState, tab: Tab, a: int, b: int)
    requires
        v.filter.at(tab).value.len() == 0,
        !v.sort_reverse.at(tab),
        0 <= a < b < v.listed(tab).len(),
    ensures
        key_le(
            v.order_key(tab, v.sort_of(tab), v.listed(tab)[a] as int),
            v.order_key(tab, v.sort_of(tab), v.listed(tab)[b] as int),
        ),
{
    lists_are_in_order(v, tab);
    let order = v.by_column(tab, v.sort_of(tab));
    let all = v.listed(tab);
    assert(is_sorted(all, order));
    assert(key_le(order(all[a]), order(all[b])));
}

/// A sorted list of images, from the top: by reference from A on, the largest first,
/// or the newest first.
pub proof fn images_come_in_order(v: AppState, a: int, b: int)
    requires
        v.filter.images.value.len() == 0,
        !v.sort_reverse.images,
        0 <= a < b < v.listed(Tab::Images).len(),
    ensures
        ({
            let upper = v.images[v.listed(Tab::Images)[a] as int];
            let lower = v.images[v.listed(Tab::Images)[b] as int];
            let sort = v.sort_of(Tab::Images);
            &&& sort == Sort::Name ==> text_le(reference_text(upper), reference_text(lower))
            &&& sort == Sort::Size ==> upper.size >= lower.size
            &&& sort == Sort::Created ==> upper.created >= lower.created
        }),
{
    neighbours_are_sorted(v, Tab::Images, a, b);
    let upper = reference_text(v.images[v.listed(Tab::Images)[a] as int]);
    text_le_total(upper, upper);
}

/// A sorted list of volumes, from the top: by name from A on, the largest first, or
/// the newest first. What has not been measured comes after all that has, and what has
/// no date after all that has one.
pub proof fn volumes_come_in_order(v: AppState, a: int, b: int)
    requires
        v.filter.volumes.value.len() == 0,
        !v.sort_reverse.volumes,
        0 <= a < b < v.listed(Tab::Volumes).len(),
    ensures
        ({
            let upper = v.volumes[v.listed(Tab::Volumes)[a] as int];
            let lower = v.volumes[v.listed(Tab::Volumes)[b] as int];
            let sort = v.sort_of(Tab::Volumes);
            &&& sort == Sort::Name ==> text_le(upper.name, lower.name)
            &&& sort == Sort::Size ==> match (upper.size, lower.size) {
                (Some(x), Some(y)) => x >= y,
                (None, Some(y)) => y <= -1,
                _ => true,
            }
            &&& sort == Sort::Created ==> match (upper.created, lower.created) {
                (Some(x), Some(y)) => x >= y,
                (None, Some(_)) => false,
                _ => true,
            }
        }),
{
    neighbours_are_sorted(v, Tab::Volumes, a, b);
    let upper = v.volumes[v.listed(Tab::Volumes)[a] as int].name;
    text_le_total(upper, upper);
}

/// A sorted list of networks, from the top: by name from A on, by driver and then by
/// name, or the newest first. What has no date comes after all that has one.
pub proof fn networks_come_in_order(v: AppState, a: int, b: int)
    requires
        v.filter.networks.value.len() == 0,
        !v.sort_reverse.networks,
        0 <= a < b < v.listed(Tab::Networks).len(),
    ensures
        ({
            let upper = v.networks[v.listed(Tab::Networks)[a] as int];
            let lower = v.networks[v.listed(Tab::Networks)[b] as int];
            let sort = v.sort_of(Tab::Networks);
            &&& sort == Sort::Name ==> text_le(upper.name, lower.name)
            &&& sort == Sort::Driver ==> text_le(upper.driver, lower.driver) && (upper.driver
                == lower.driver ==> text_le(upper.name, lower.name))
            &&& sort == Sort::Created ==> match (upper.created, lower.created) {
                (Some(x), Some(y)) => x >= y,
                (None, Some(_)) => false,
                _ => true,
            }
        }),
{
    neighbours_are_sorted(v, Tab::Networks, a, b);
    let upper = v.networks[v.listed(Tab::Networks)[a] as int].name;
    text_le_total(upper, upper);
    let driver = v.networks[v.listed(Tab::Networks)[a] as int].driver;
    text_le_total(driver, driver);
}

/// Turning the order round turns the list round: the same rows, the last first.
pub proof fn reversing_reverses(v: AppState, w: AppState, tab: Tab, k: int)
    requires
        v.filter.at(tab).value.len() == 0,
        w == (AppState {
            sort_reverse: v.sort_reverse.with(tab, !v.sort_reverse.at(tab)),
            ..v
        }),
        0 <= k < v.listed(tab).len(),
    ensures
        w.listed(tab).len() == v.listed(tab).len(),
        w.listed(tab)[k] == v.listed(tab)[v.listed(tab).len() - 1 - k],
{
    reveal(AppState::listed);
    assert(w.candidates(tab) =~= v.candidates(tab)) by {
        same_containers_show(v, w, v.containers.len() as int);
    }
    assert(w.by_column(tab, v.sort_of(tab)) =~= v.by_column(tab, v.sort_of(tab))) by {
        assert forall|i: usize| #[trigger]
            w.by_column(tab, v.sort_of(tab))(i) == v.by_column(tab, v.sort_of(tab))(i) by {}
    }
}

proof fn same_containers_show(v: AppState, w: AppState, n: int)
    requires
        v.containers == w.containers,
        v.show_stopped == w.show_stopped,
    ensures
        v.shown_containers(n) == w.shown_containers(n),
    decreases n,
{
    if n > 0 {
        same_containers_show(v, w, n - 1);
    }
}

/// With a filter the best match comes first, however the list is sorted.
pub proof fn the_best_match_comes_first(v: AppState, tab: Tab, a: int, b: int)
    requires
        v.filter.at(tab).value.len() > 0,
        v.count(tab) <= usize::MAX,
        0 <= a < b < v.listed(tab).len(),
    ensures
        (match_of(
            v.search_key(tab, v.listed(tab)[a] as int),
            v.filter.at(tab).value,
        )->0).score >= (match_of(
            v.search_key(tab, v.listed(tab)[b] as int),
            v.filter.at(tab).value,
        )->0).score,
{
    reveal(AppState::listed);
    let needle = v.filter.at(tab).value;
    let cands = v.candidates(tab);
    let keys = cands.map_values(|i: usize| v.search_key(tab, i as int));
    crate::app::laws::candidates_are_few(v, tab);
    crate::util::fuzzy::ranking_is_best_first(keys, needle, a, b);
    let ranked = crate::util::fuzzy::ranking(keys, needle);
    assert(ranked.contains(ranked[a]) && ranked.contains(ranked[b]));
    crate::util::fuzzy::ranking_is_exact(keys, needle, ranked[a]);
    crate::util::fuzzy::ranking_is_exact(keys, needle, ranked[b]);
}

/// The rows of a list that is not grouped are what it lists, in that order.
pub proof fn rows_follow_the_list(v: AppState, tab: Tab)
    requires
        !(tab == Tab::Containers && v.group_by_stack),
    ensures
        v.rebuilt(tab).views.at(tab).len() == v.listed(tab).len(),
        forall|k: int|
            0 <= k < v.listed(tab).len() ==> #[trigger] v.rebuilt(tab).views.at(tab)[k]
                == ViewRow::Item(v.listed(tab)[k]),
{
    reveal(AppState::rebuilt);
    reveal(AppState::with_selection);
    reveal(AppState::rows_for);
}

/// Without a filter a tab lists everything, but that containers that are neither up nor
/// paused nor on their way down can be hidden.
pub proof fn only_what_is_down_can_be_hidden(v: AppState, tab: Tab, i: usize)
    requires
        v.filter.at(tab).value.len() == 0,
        v.count(tab) <= usize::MAX,
        i < v.count(tab),
    ensures
        v.show_stopped || tab != Tab::Containers ==> v.listed(tab).contains(i),
        tab == Tab::Containers && !v.show_stopped ==> ({
            let state = v.containers[i as int].state;
            v.listed(tab).contains(i) <==> state == State::Running || state == State::Restarting
                || state == State::Paused || state == State::Stopping
        }),
{
    crate::app::laws::lists_are_exact(v, tab, i);
}

} // verus!
