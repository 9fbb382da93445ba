//! The command palette.

use vstd::prelude::*;

use crate::action::{
    command_at, command_table, help_of, name_of, Command, COMMAND_COUNT,
};
use crate::order::{
    climbs, key_le, number_key, sort_by_keys, sorted_by, sorting_keeps_members,
    sorting_keeps_ties_in_order, sorting_orders, KeyView, SortKey,
};
use crate::text::chars_of;
use crate::util::fuzzy::{match_of, match_str, scores_are_bounded};

verus! {

broadcast use vstd::string::group_string_axioms;

/// What a hit in a command's name is worth on top. Comfortably above any score
/// the matcher can produce, including its substring band.
pub const NAME_BONUS: i64 = 100_000;

/// How well a command fits, if at all. A hit in the command's *name* outranks
/// one that only appears in its description — otherwise typing `rest` surfaces
/// "copy id" (whose help text contains "resource") above "container: restart".
pub open spec fn fit_of(command: Command, nee: Seq<char>) -> Option<int> {
    match match_of(name_of(command), nee) {
        Some(m) => Some(m.score + NAME_BONUS),
        None => match match_of(help_of(command), nee) {
            Some(m) => Some(m.score),
            None => None,
        },
    }
}

/// The first `n` lines of the table that fit, each with how well.
pub open spec fn fitting(nee: Seq<char>, n: int) -> Seq<(usize, i64)>
    decreases n,
{
    if n <= 0 {
        Seq::empty()
    } else {
        match fit_of(command_table()[n - 1], nee) {
            Some(score) => fitting(nee, n - 1).push(((n - 1) as usize, score as i64)),
            None => fitting(nee, n - 1),
        }
    }
}

/// Best fit first.
pub open spec fn by_fit() -> spec_fn((usize, i64)) -> KeyView {
    |p: (usize, i64)| number_key(-(p.1 as int))
}

/// The lines of the table that fit, best first; every line when nothing was
/// typed.
pub open spec fn palette_for(nee: Seq<char>) -> Seq<usize> {
    if nee.len() == 0 {
        Seq::new(COMMAND_COUNT as nat, |i: int| i as usize)
    } else {
        sorted_by(fitting(nee, COMMAND_COUNT as int), by_fit()).map_values(
            |p: (usize, i64)| p.0,
        )
    }
}

fn fit(command: Command, needle: &str) -> (out: Option<i64>)
    ensures
        match out {
            Some(score) => fit_of(command, needle@) == Some(score as int),
            None => fit_of(command, needle@) is None,
        },
{
    match match_str(command.name(), needle) {
        Some(m) => Some(m.score as i64 + NAME_BONUS),
        None => match match_str(command.help(), needle) {
            Some(m) => Some(m.score as i64),
            None => None,
        },
    }
}

fn all_lines() -> (out: Vec<usize>)
    ensures
        out@ == Seq::new(COMMAND_COUNT as nat, |i: int| i as usize),
{
    let mut out: Vec<usize> = Vec::new();
    let mut i: usize = 0;
    while i < COMMAND_COUNT
        invariant
            i <= COMMAND_COUNT,
            out@ == Seq::new(i as nat, |k: int| k as usize),
        decreases COMMAND_COUNT - i,
    {
        out.push(i);
        i += 1;
        assert(out@ =~= Seq::new(i as nat, |k: int| k as usize));
    }
    out
}

/// Rank every command against a query.
pub fn palette_lines(needle: &str) -> (out: Vec<usize>)
    ensures
        out@ == palette_for(needle@),
        forall|k: int| 0 <= k < out.len() ==> #[trigger] out@[k] < COMMAND_COUNT,
{
    if chars_of(needle).len() == 0 {
        return all_lines();
    }
    let mut hits: Vec<(usize, i64)> = Vec::new();
    let mut order: Vec<SortKey> = Vec::new();
    let mut i: usize = 0;
    while i < COMMAND_COUNT
        invariant
            i <= COMMAND_COUNT,
            hits@ == fitting(needle@, i as int),
            hits.len() == order.len(),
            forall|k: int| 0 <= k < hits.len() ==> #[trigger] order@[k]@ == by_fit()(hits@[k]),
        decreases COMMAND_COUNT - i,
    {
        if let Some(score) = fit(command_at(i), needle) {
            hits.push((i, score));
            order.push(SortKey::number(-(score as i128)));
        }
        i += 1;
    }
    let sorted = sort_by_keys(hits, order, Ghost(by_fit()));
    proof {
        lines_exist(needle@);
    }
    let mut out: Vec<usize> = Vec::new();
    let mut j: usize = 0;
    while j < sorted.len()
        invariant
            j <= sorted.len(),
            out@ == sorted@.take(j as int).map_values(|p: (usize, i64)| p.0),
            forall|k: int| 0 <= k < sorted.len() ==> (#[trigger] sorted@[k]).0 < COMMAND_COUNT,
            forall|k: int| 0 <= k < out.len() ==> #[trigger] out@[k] < COMMAND_COUNT,
        decreases sorted.len() - j,
    {
        out.push(sorted[j].0);
        assert(sorted@.take(j + 1) =~= sorted@.take(j as int).push(sorted@[j as int]));
        assert(out@ =~= sorted@.take(j + 1).map_values(|p: (usize, i64)| p.0));
        j += 1;
    }
    assert(sorted@.take(sorted@.len() as int) =~= sorted@);
    out
}

proof fn fitting_members(nee: Seq<char>, n: int)
    requires
        0 <= n <= COMMAND_COUNT,
    ensures
        forall|p: (usize, i64)| #[trigger]
            fitting(nee, n).contains(p) <==> p.0 < n && fit_of(command_table()[p.0 as int], nee)
                is Some && p.1 == (fit_of(command_table()[p.0 as int], nee)->0) as i64,
    decreases n,
{
    if n > 0 {
        fitting_members(nee, n - 1);
        let rest = fitting(nee, n - 1);
        let fit = fit_of(command_table()[n - 1], nee);
        assert forall|p: (usize, i64)| #[trigger]
            fitting(nee, n).contains(p) <==> p.0 < n && fit_of(command_table()[p.0 as int], nee)
                is Some && p.1 == (fit_of(command_table()[p.0 as int], nee)->0) as i64 by {
            if fit is Some {
                let new = ((n - 1) as usize, (fit->0) as i64);
                assert(fitting(nee, n) == rest.push(new));
                if rest.contains(p) {
                    let k = choose|k: int| 0 <= k < rest.len() && rest[k] == p;
                    assert(rest.push(new)[k] == p);
                }
                if p == new {
                    assert(rest.push(new)[rest.len() as int] == p);
                }
            }
        }
    }
}

proof fn lines_exist(nee: Seq<char>)
    ensures
        forall|k: int|
            0 <= k < sorted_by(fitting(nee, COMMAND_COUNT as int), by_fit()).len() ==> (
            #[trigger] sorted_by(fitting(nee, COMMAND_COUNT as int), by_fit())[k]).0
                < COMMAND_COUNT,
{
    let all = fitting(nee, COMMAND_COUNT as int);
    let sorted = sorted_by(all, by_fit());
    fitting_members(nee, COMMAND_COUNT as int);
    assert forall|k: int| 0 <= k < sorted.len() implies (#[trigger] sorted[k]).0
        < COMMAND_COUNT by {
        sorting_keeps_members(all, by_fit(), sorted[k]);
        assert(sorted.contains(sorted[k]));
    }
}

proof fn words_are_short(command: Command)
    ensures
        name_of(command).len() <= 100,
        help_of(command).len() <= 100,
{
    reveal_strlit("go: next tab");
    reveal_strlit("go: previous tab");
    reveal_strlit("go: containers");
    reveal_strlit("go: images");
    reveal_strlit("go: volumes");
    reveal_strlit("go: networks");
    reveal_strlit("go: down");
    reveal_strlit("go: up");
    reveal_strlit("go: page down");
    reveal_strlit("go: page up");
    reveal_strlit("go: first");
    reveal_strlit("go: last");
    reveal_strlit("group by stack");
    reveal_strlit("stack: fold");
    reveal_strlit("stack: fold all");
    reveal_strlit("view: toggle details");
    reveal_strlit("view: toggle logs");
    reveal_strlit("view: switch pane focus");
    reveal_strlit("logs: toggle follow");
    reveal_strlit("logs: toggle wrap");
    reveal_strlit("logs: toggle timestamps");
    reveal_strlit("container: start");
    reveal_strlit("container: stop");
    reveal_strlit("container: restart");
    reveal_strlit("container: pause / unpause");
    reveal_strlit("container: kill");
    reveal_strlit("container: shell");
    reveal_strlit("remove selected");
    reveal_strlit("prune unused");
    reveal_strlit("copy id");
    reveal_strlit("filter");
    reveal_strlit("clear filter");
    reveal_strlit("command palette");
    reveal_strlit("toggle stopped");
    reveal_strlit("sort: next column");
    reveal_strlit("sort: reverse");
    reveal_strlit("refresh");
    reveal_strlit("help");
    reveal_strlit("quit");
    reveal_strlit("Move to the next tab");
    reveal_strlit("Move to the previous tab");
    reveal_strlit("Show the containers tab");
    reveal_strlit("Show the images tab");
    reveal_strlit("Show the volumes tab");
    reveal_strlit("Show the networks tab");
    reveal_strlit("Move down one row");
    reveal_strlit("Move up one row");
    reveal_strlit("Move down a page");
    reveal_strlit("Move up a page");
    reveal_strlit("Jump to the first row");
    reveal_strlit("Jump to the last row");
    reveal_strlit("Group containers by their compose project or swarm stack");
    reveal_strlit("Fold or unfold the stack the cursor is in");
    reveal_strlit("Fold every stack, or unfold them all if none are folded");
    reveal_strlit("Show or hide the detail pane");
    reveal_strlit("Show or hide the log pane");
    reveal_strlit("Move focus between the list and the log pane");
    reveal_strlit("Follow new log lines, or stay put");
    reveal_strlit("Wrap long log lines");
    reveal_strlit("Show or hide log timestamps");
    reveal_strlit("Start the selected container");
    reveal_strlit("Stop the selected container");
    reveal_strlit("Restart the selected container");
    reveal_strlit("Freeze or resume the selected container");
    reveal_strlit("Send SIGKILL to the selected container");
    reveal_strlit("Open an interactive shell inside the container");
    reveal_strlit("Delete the selected resource (asks first)");
    reveal_strlit("Delete every unused resource on this tab (asks first)");
    reveal_strlit("Copy the selected resource's id to the clipboard");
    reveal_strlit("Fuzzy-filter the current list");
    reveal_strlit("Drop the current filter and show everything again");
    reveal_strlit("Search every command by name");
    reveal_strlit("Show or hide stopped containers");
    reveal_strlit("Cycle the sort column");
    reveal_strlit("Reverse the sort direction");
    reveal_strlit("Re-read everything from the daemon now");
    reveal_strlit("Show every keybinding");
    reveal_strlit("Leave dockyard");
}

/// The palette lists exactly the commands that fit what was typed: all of them
/// when nothing was.
pub proof fn palette_is_exact(nee: Seq<char>, i: usize)
    ensures
        palette_for(nee).contains(i) <==> i < COMMAND_COUNT && fit_of(
            command_table()[i as int],
            nee,
        ) is Some,
{
    if nee.len() == 0 {
        if i < COMMAND_COUNT {
            assert(palette_for(nee)[i as int] == i);
        }
    } else {
        let all = fitting(nee, COMMAND_COUNT as int);
        let sorted = sorted_by(all, by_fit());
        fitting_members(nee, COMMAND_COUNT as int);
        if palette_for(nee).contains(i) {
            let k = choose|k: int| 0 <= k < palette_for(nee).len() && palette_for(nee)[k] == i;
            sorting_keeps_members(all, by_fit(), sorted[k]);
            assert(sorted.contains(sorted[k]));
        }
        if i < COMMAND_COUNT && fit_of(command_table()[i as int], nee) is Some {
            let p = (i, (fit_of(command_table()[i as int], nee)->0) as i64);
            assert(all.contains(p));
            sorting_keeps_members(all, by_fit(), p);
            let k = choose|k: int| 0 <= k < sorted.len() && sorted[k] == p;
            assert(palette_for(nee)[k] == i);
        }
    }
}

/// The palette is ordered: no entry fits better than one listed before it.
pub proof fn palette_is_best_first(nee: Seq<char>, i: int, j: int)
    requires
        nee.len() > 0,
        0 <= i <= j < palette_for(nee).len(),
    ensures
        fit_of(command_table()[palette_for(nee)[i] as int], nee)->0 >= fit_of(
            command_table()[palette_for(nee)[j] as int],
            nee,
        )->0,
{
    let all = fitting(nee, COMMAND_COUNT as int);
    let sorted = sorted_by(all, by_fit());
    fitting_members(nee, COMMAND_COUNT as int);
    sorting_orders(all, by_fit());
    sorting_keeps_members(all, by_fit(), sorted[i]);
    sorting_keeps_members(all, by_fit(), sorted[j]);
    assert(sorted.contains(sorted[i]));
    assert(sorted.contains(sorted[j]));
    assert(key_le(by_fit()(sorted[i]), by_fit()(sorted[j])));
    scores_are_bounded(name_of(command_table()[sorted[i].0 as int]), nee);
    scores_are_bounded(help_of(command_table()[sorted[i].0 as int]), nee);
    scores_are_bounded(name_of(command_table()[sorted[j].0 as int]), nee);
    scores_are_bounded(help_of(command_table()[sorted[j].0 as int]), nee);
}

proof fn fitting_climbs(nee: Seq<char>, n: int)
    requires
        0 <= n <= COMMAND_COUNT,
    ensures
        climbs(fitting(nee, n), by_line()),
        forall|k: int| 0 <= k < fitting(nee, n).len() ==> (#[trigger] fitting(nee, n)[k]).0 < n,
    decreases n,
{
    if n > 0 {
        fitting_climbs(nee, n - 1);
    }
}

/// Where a command stands in the table.
pub open spec fn by_line() -> spec_fn((usize, i64)) -> int {
    |p: (usize, i64)| p.0 as int
}

/// The palette lists no command twice, and commands that fit equally well keep the
/// order of the table.
pub proof fn palette_keeps_ties_in_order(nee: Seq<char>, i: int, j: int)
    requires
        0 <= i < j < palette_for(nee).len(),
    ensures
        palette_for(nee)[i] != palette_for(nee)[j],
        fit_of(command_table()[palette_for(nee)[i] as int], nee) == fit_of(
            command_table()[palette_for(nee)[j] as int],
            nee,
        ) ==> palette_for(nee)[i] < palette_for(nee)[j],
{
    if nee.len() > 0 {
        let all = fitting(nee, COMMAND_COUNT as int);
        let sorted = sorted_by(all, by_fit());
        fitting_climbs(nee, COMMAND_COUNT as int);
        fitting_members(nee, COMMAND_COUNT as int);
        sorting_keeps_ties_in_order(all, by_fit(), by_line(), i, j);
        assert(sorted.contains(sorted[i]) && sorted.contains(sorted[j]));
        sorting_keeps_members(all, by_fit(), sorted[i]);
        sorting_keeps_members(all, by_fit(), sorted[j]);
    }
}

/// With nothing typed the palette is the whole table, in order.
pub proof fn an_empty_palette_query_lists_the_table(i: int)
    requires
        0 <= i < COMMAND_COUNT,
    ensures
        palette_for(Seq::empty()).len() == COMMAND_COUNT,
        palette_for(Seq::empty())[i] == i,
{
}

/// A hit in a command's name outranks any that is only in a description.
pub proof fn names_outrank_descriptions(nee: Seq<char>, i: int, j: int)
    requires
        0 <= i < palette_for(nee).len(),
        0 <= j < palette_for(nee).len(),
        match_of(name_of(command_table()[palette_for(nee)[i] as int]), nee) is Some,
        match_of(name_of(command_table()[palette_for(nee)[j] as int]), nee) is None,
    ensures
        i < j,
{
    let a = command_table()[palette_for(nee)[i] as int];
    let b = command_table()[palette_for(nee)[j] as int];
    assert(palette_for(nee).contains(palette_for(nee)[i]));
    assert(palette_for(nee).contains(palette_for(nee)[j]));
    palette_is_exact(nee, palette_for(nee)[i]);
    palette_is_exact(nee, palette_for(nee)[j]);
    words_are_short(a);
    words_are_short(b);
    scores_are_bounded(name_of(a), nee);
    scores_are_bounded(help_of(b), nee);
    if i >= j {
        palette_is_best_first(nee, j, i);
    }
}

} // verus!
