//! The words on the screen, letter by letter.

use vstd::prelude::*;

use crate::action::{help_of, name_of, Command};
use crate::ui::ascii::ascii;

verus! {

/// Whether the first `n` characters of a text are in ASCII.
spec fn ascii_so_far(s: Seq<char>, n: int) -> bool
    decreases n,
{
    n <= 0 || (s[n - 1] as u32 <= 0x7F && ascii_so_far(s, n - 1))
}

proof fn spelled_out(s: Seq<char>)
    requires
        ascii_so_far(s, s.len() as int),
    ensures
        ascii(s),
{
    reveal(ascii);
    assert forall|i: int| 0 <= i < s.len() implies (#[trigger] s[i]) as u32 <= 0x7F by {
        so_far_covers(s, s.len() as int, i);
    }
}

proof fn so_far_covers(s: Seq<char>, n: int, i: int)
    requires
        ascii_so_far(s, n),
        0 <= i < n,
    ensures
        s[i] as u32 <= 0x7F,
    decreases n,
{
    if i < n - 1 {
        so_far_covers(s, n - 1, i);
    }
}

pub(crate) proof fn names_are_ascii(command: Command)
    ensures
        ascii(name_of(command)),
{
    reveal_with_fuel(ascii_so_far, 80);
    reveal_strlit("go: next tab");
    spelled_out("go: next tab"@);
    reveal_strlit("go: previous tab");
    spelled_out("go: previous tab"@);
    reveal_strlit("go: containers");
    spelled_out("go: containers"@);
    reveal_strlit("go: images");
    spelled_out("go: images"@);
    reveal_strlit("go: volumes");
    spelled_out("go: volumes"@);
    reveal_strlit("go: networks");
    spelled_out("go: networks"@);
    reveal_strlit("go: down");
    spelled_out("go: down"@);
    reveal_strlit("go: up");
    spelled_out("go: up"@);
    reveal_strlit("go: page down");
    spelled_out("go: page down"@);
    reveal_strlit("go: page up");
    spelled_out("go: page up"@);
    reveal_strlit("go: first");
    spelled_out("go: first"@);
    reveal_strlit("go: last");
    spelled_out("go: last"@);
    reveal_strlit("group by stack");
    spelled_out("group by stack"@);
    reveal_strlit("stack: fold");
    spelled_out("stack: fold"@);
    reveal_strlit("stack: fold all");
    spelled_out("stack: fold all"@);
    reveal_strlit("view: toggle details");
    spelled_out("view: toggle details"@);
    reveal_strlit("view: toggle logs");
    spelled_out("view: toggle logs"@);
    reveal_strlit("view: switch pane focus");
    spelled_out("view: switch pane focus"@);
    reveal_strlit("logs: toggle follow");
    spelled_out("logs: toggle follow"@);
    reveal_strlit("logs: toggle wrap");
    spelled_out("logs: toggle wrap"@);
    reveal_strlit("logs: toggle timestamps");
    spelled_out("logs: toggle timestamps"@);
    reveal_strlit("container: start");
    spelled_out("container: start"@);
    reveal_strlit("container: stop");
    spelled_out("container: stop"@);
    reveal_strlit("container: restart");
    spelled_out("container: restart"@);
    reveal_strlit("container: pause / unpause");
    spelled_out("container: pause / unpause"@);
    reveal_strlit("container: kill");
    spelled_out("container: kill"@);
    reveal_strlit("container: shell");
    spelled_out("container: shell"@);
    reveal_strlit("remove selected");
    spelled_out("remove selected"@);
    reveal_strlit("prune unused");
    spelled_out("prune unused"@);
    reveal_strlit("copy id");
    spelled_out("copy id"@);
    reveal_strlit("filter");
    spelled_out("filter"@);
    reveal_strlit("clear filter");
    spelled_out("clear filter"@);
    reveal_strlit("command palette");
    spelled_out("command palette"@);
    reveal_strlit("toggle stopped");
    spelled_out("toggle stopped"@);
    reveal_strlit("sort: next column");
    spelled_out("sort: next column"@);
    reveal_strlit("sort: reverse");
    spelled_out("sort: reverse"@);
    reveal_strlit("refresh");
    spelled_out("refresh"@);
    reveal_strlit("help");
    spelled_out("help"@);
    reveal_strlit("quit");
    spelled_out("quit"@);
}

pub(crate) proof fn helps_are_ascii(command: Command)
    ensures
        ascii(help_of(command)),
{
    reveal_with_fuel(ascii_so_far, 80);
    reveal_strlit("Move to the next tab");
    spelled_out("Move to the next tab"@);
    reveal_strlit("Move to the previous tab");
    spelled_out("Move to the previous tab"@);
    reveal_strlit("Show the containers tab");
    spelled_out("Show the containers tab"@);
    reveal_strlit("Show the images tab");
    spelled_out("Show the images tab"@);
    reveal_strlit("Show the volumes tab");
    spelled_out("Show the volumes tab"@);
    reveal_strlit("Show the networks tab");
    spelled_out("Show the networks tab"@);
    reveal_strlit("Move down one row");
    spelled_out("Move down one row"@);
    reveal_strlit("Move up one row");
    spelled_out("Move up one row"@);
    reveal_strlit("Move down a page");
    spelled_out("Move down a page"@);
    reveal_strlit("Move up a page");
    spelled_out("Move up a page"@);
    reveal_strlit("Jump to the first row");
    spelled_out("Jump to the first row"@);
    reveal_strlit("Jump to the last row");
    spelled_out("Jump to the last row"@);
    reveal_strlit("Group containers by their compose project or swarm stack");
    spelled_out("Group containers by their compose project or swarm stack"@);
    reveal_strlit("Fold or unfold the stack the cursor is in");
    spelled_out("Fold or unfold the stack the cursor is in"@);
    reveal_strlit("Fold every stack, or unfold them all if none are folded");
    spelled_out("Fold every stack, or unfold them all if none are folded"@);
    reveal_strlit("Show or hide the detail pane");
    spelled_out("Show or hide the detail pane"@);
    reveal_strlit("Show or hide the log pane");
    spelled_out("Show or hide the log pane"@);
    reveal_strlit("Move focus between the list and the log pane");
    spelled_out("Move focus between the list and the log pane"@);
    reveal_strlit("Follow new log lines, or stay put");
    spelled_out("Follow new log lines, or stay put"@);
    reveal_strlit("Wrap long log lines");
    spelled_out("Wrap long log lines"@);
    reveal_strlit("Show or hide log timestamps");
    spelled_out("Show or hide log timestamps"@);
    reveal_strlit("Start the selected container");
    spelled_out("Start the selected container"@);
    reveal_strlit("Stop the selected container");
    spelled_out("Stop the selected container"@);
    reveal_strlit("Restart the selected container");
    spelled_out("Restart the selected container"@);
    reveal_strlit("Freeze or resume the selected container");
    spelled_out("Freeze or resume the selected container"@);
    reveal_strlit("Send SIGKILL to the selected container");
    spelled_out("Send SIGKILL to the selected container"@);
    reveal_strlit("Open an interactive shell inside the container");
    spelled_out("Open an interactive shell inside the container"@);
    reveal_strlit("Delete the selected resource (asks first)");
    spelled_out("Delete the selected resource (asks first)"@);
    reveal_strlit("Delete every unused resource on this tab (asks first)");
    spelled_out("Delete every unused resource on this tab (asks first)"@);
    reveal_strlit("Copy the selected resource's id to the clipboard");
    spelled_out("Copy the selected resource's id to the clipboard"@);
    reveal_strlit("Fuzzy-filter the current list");
    spelled_out("Fuzzy-filter the current list"@);
    reveal_strlit("Drop the current filter and show everything again");
    spelled_out("Drop the current filter and show everything again"@);
    reveal_strlit("Search every command by name");
    spelled_out("Search every command by name"@);
    reveal_strlit("Show or hide stopped containers");
    spelled_out("Show or hide stopped containers"@);
    reveal_strlit("Cycle the sort column");
    spelled_out("Cycle the sort column"@);
    reveal_strlit("Reverse the sort direction");
    spelled_out("Reverse the sort direction"@);
    reveal_strlit("Re-read everything from the daemon now");
    spelled_out("Re-read everything from the daemon now"@);
    reveal_strlit("Show every keybinding");
    spelled_out("Show every keybinding"@);
    reveal_strlit("Leave dockyard");
    spelled_out("Leave dockyard"@);
}

pub(crate) proof fn mark_words()
    ensures
        ascii("*"@),
        ascii("-"@),
        ascii("="@),
        ascii("~"@),
        ascii("+"@),
        ascii("x"@),
        ascii("!"@),
        ascii(""@),
        ascii(">"@),
        ascii("v"@),
        ascii("^"@),
        ascii("up"@),
        ascii("/down"@),
        ascii("ok"@),
        ascii("|"@),
        ascii("/"@),
        ascii("\\"@),
        ascii("_"@),
        ascii("enter"@),
        ascii("..."@),
        ascii("->"@),
{
    reveal_with_fuel(ascii_so_far, 80);
    reveal_strlit("*");
    spelled_out("*"@);
    reveal_strlit("-");
    spelled_out("-"@);
    reveal_strlit("=");
    spelled_out("="@);
    reveal_strlit("~");
    spelled_out("~"@);
    reveal_strlit("+");
    spelled_out("+"@);
    reveal_strlit("x");
    spelled_out("x"@);
    reveal_strlit("!");
    spelled_out("!"@);
    reveal_strlit("");
    spelled_out(""@);
    reveal_strlit(">");
    spelled_out(">"@);
    reveal_strlit("v");
    spelled_out("v"@);
    reveal_strlit("^");
    spelled_out("^"@);
    reveal_strlit("up");
    spelled_out("up"@);
    reveal_strlit("/down");
    spelled_out("/down"@);
    reveal_strlit("ok");
    spelled_out("ok"@);
    reveal_strlit("|");
    spelled_out("|"@);
    reveal_strlit("/");
    spelled_out("/"@);
    reveal_strlit("\\");
    spelled_out("\\"@);
    reveal_strlit("_");
    spelled_out("_"@);
    reveal_strlit("enter");
    spelled_out("enter"@);
    reveal_strlit("...");
    spelled_out("..."@);
    reveal_strlit("->");
    spelled_out("->"@);
}

pub(crate) proof fn unit_words()
    ensures
        ascii("B"@),
        ascii("kB"@),
        ascii("MB"@),
        ascii("GB"@),
        ascii("TB"@),
        ascii("PB"@),
        ascii("s"@),
        ascii("m"@),
        ascii("h"@),
        ascii("d"@),
        ascii("mo"@),
        ascii("y"@),
        ascii("-"@),
        ascii(" ago"@),
{
    reveal_with_fuel(ascii_so_far, 80);
    reveal_strlit("B");
    spelled_out("B"@);
    reveal_strlit("kB");
    spelled_out("kB"@);
    reveal_strlit("MB");
    spelled_out("MB"@);
    reveal_strlit("GB");
    spelled_out("GB"@);
    reveal_strlit("TB");
    spelled_out("TB"@);
    reveal_strlit("PB");
    spelled_out("PB"@);
    reveal_strlit("s");
    spelled_out("s"@);
    reveal_strlit("m");
    spelled_out("m"@);
    reveal_strlit("h");
    spelled_out("h"@);
    reveal_strlit("d");
    spelled_out("d"@);
    reveal_strlit("mo");
    spelled_out("mo"@);
    reveal_strlit("y");
    spelled_out("y"@);
    reveal_strlit("-");
    spelled_out("-"@);
    reveal_strlit(" ago");
    spelled_out(" ago"@);
}

pub(crate) proof fn footer_words()
    ensures
        ascii(" "@),
        ascii("   "@),
        ascii(" match"@),
        ascii(" matches"@),
        ascii(" keep   esc clear"@),
        ascii("hide details"@),
        ascii("details"@),
        ascii("hide logs"@),
        ascii("logs"@),
        ascii("start"@),
        ascii("stop"@),
        ascii("restart"@),
        ascii("shell"@),
        ascii("delete"@),
        ascii("filter"@),
        ascii("help"@),
        ascii("quit"@),
        ascii("ungroup"@),
        ascii("group"@),
        ascii(""@),
        ascii("move"@),
        ascii("tab"@),
        ascii("switch"@),
{
    reveal_with_fuel(ascii_so_far, 80);
    reveal_strlit(" ");
    spelled_out(" "@);
    reveal_strlit("   ");
    spelled_out("   "@);
    reveal_strlit(" match");
    spelled_out(" match"@);
    reveal_strlit(" matches");
    spelled_out(" matches"@);
    reveal_strlit(" keep   esc clear");
    spelled_out(" keep   esc clear"@);
    reveal_strlit("hide details");
    spelled_out("hide details"@);
    reveal_strlit("details");
    spelled_out("details"@);
    reveal_strlit("hide logs");
    spelled_out("hide logs"@);
    reveal_strlit("logs");
    spelled_out("logs"@);
    reveal_strlit("start");
    spelled_out("start"@);
    reveal_strlit("stop");
    spelled_out("stop"@);
    reveal_strlit("restart");
    spelled_out("restart"@);
    reveal_strlit("shell");
    spelled_out("shell"@);
    reveal_strlit("delete");
    spelled_out("delete"@);
    reveal_strlit("filter");
    spelled_out("filter"@);
    reveal_strlit("help");
    spelled_out("help"@);
    reveal_strlit("quit");
    spelled_out("quit"@);
    reveal_strlit("ungroup");
    spelled_out("ungroup"@);
    reveal_strlit("group");
    spelled_out("group"@);
    reveal_strlit("");
    spelled_out(""@);
    reveal_strlit("move");
    spelled_out("move"@);
    reveal_strlit("tab");
    spelled_out("tab"@);
    reveal_strlit("switch");
    spelled_out("switch"@);
}

pub(crate) proof fn header_words()
    ensures
        ascii("connecting"@),
        ascii("docker "@),
        ascii("  "@),
        ascii("/"@),
        ascii(" running"@),
        ascii(" "@),
        ascii("Containers"@),
        ascii("Images"@),
        ascii("Volumes"@),
        ascii("Networks"@),
{
    reveal_with_fuel(ascii_so_far, 80);
    reveal_strlit("connecting");
    spelled_out("connecting"@);
    reveal_strlit("docker ");
    spelled_out("docker "@);
    reveal_strlit("  ");
    spelled_out("  "@);
    reveal_strlit("/");
    spelled_out("/"@);
    reveal_strlit(" running");
    spelled_out(" running"@);
    reveal_strlit(" ");
    spelled_out(" "@);
    reveal_strlit("Containers");
    spelled_out("Containers"@);
    reveal_strlit("Images");
    spelled_out("Images"@);
    reveal_strlit("Volumes");
    spelled_out("Volumes"@);
    reveal_strlit("Networks");
    spelled_out("Networks"@);
}

pub(crate) proof fn banner_words()
    ensures
        ascii(" "@),
        ascii(" docker unreachable "@),
{
    reveal_with_fuel(ascii_so_far, 80);
    reveal_strlit(" ");
    spelled_out(" "@);
    reveal_strlit(" docker unreachable ");
    spelled_out(" docker unreachable "@);
}

pub(crate) proof fn state_words()
    ensures
        ascii("running"@),
        ascii("restarting"@),
        ascii("paused"@),
        ascii("created"@),
        ascii("stopping"@),
        ascii("removing"@),
        ascii("exited"@),
        ascii("dead"@),
        ascii("unknown"@),
        ascii(")"@),
{
    reveal_with_fuel(ascii_so_far, 80);
    reveal_strlit("running");
    spelled_out("running"@);
    reveal_strlit("restarting");
    spelled_out("restarting"@);
    reveal_strlit("paused");
    spelled_out("paused"@);
    reveal_strlit("created");
    spelled_out("created"@);
    reveal_strlit("stopping");
    spelled_out("stopping"@);
    reveal_strlit("removing");
    spelled_out("removing"@);
    reveal_strlit("exited");
    spelled_out("exited"@);
    reveal_strlit("dead");
    spelled_out("dead"@);
    reveal_strlit("unknown");
    spelled_out("unknown"@);
    reveal_strlit(")");
    spelled_out(")"@);
}

pub(crate) proof fn port_words()
    ensures
        ascii("/"@),
        ascii(":"@),
        ascii("->"@),
        ascii("-"@),
        ascii(", "@),
{
    reveal_with_fuel(ascii_so_far, 80);
    reveal_strlit("/");
    spelled_out("/"@);
    reveal_strlit(":");
    spelled_out(":"@);
    reveal_strlit("->");
    spelled_out("->"@);
    reveal_strlit("-");
    spelled_out("-"@);
    reveal_strlit(", ");
    spelled_out(", "@);
}

pub(crate) proof fn cell_words()
    ensures
        ascii(" "@),
        ascii("  "@),
        ascii("%"@),
        ascii("-"@),
        ascii(" up"@),
        ascii("/"@),
        ascii(", "@),
        ascii("standalone"@),
{
    reveal_with_fuel(ascii_so_far, 80);
    reveal_strlit(" ");
    spelled_out(" "@);
    reveal_strlit("  ");
    spelled_out("  "@);
    reveal_strlit("%");
    spelled_out("%"@);
    reveal_strlit("-");
    spelled_out("-"@);
    reveal_strlit(" up");
    spelled_out(" up"@);
    reveal_strlit("/");
    spelled_out("/"@);
    reveal_strlit(", ");
    spelled_out(", "@);
    reveal_strlit("standalone");
    spelled_out("standalone"@);
}

pub(crate) proof fn column_words()
    ensures
        ascii(" "@),
        ascii(""@),
        ascii("NAME"@),
        ascii("IMAGE"@),
        ascii("STATE"@),
        ascii("CPU"@),
        ascii("MEM"@),
        ascii("PORTS"@),
        ascii("REPOSITORY"@),
        ascii("TAG"@),
        ascii("ID"@),
        ascii("SIZE"@),
        ascii("AGE"@),
        ascii("USED"@),
        ascii("DRIVER"@),
        ascii("MOUNTPOINT"@),
        ascii("SCOPE"@),
        ascii("SUBNET"@),
{
    reveal_with_fuel(ascii_so_far, 80);
    reveal_strlit(" ");
    spelled_out(" "@);
    reveal_strlit("");
    spelled_out(""@);
    reveal_strlit("NAME");
    spelled_out("NAME"@);
    reveal_strlit("IMAGE");
    spelled_out("IMAGE"@);
    reveal_strlit("STATE");
    spelled_out("STATE"@);
    reveal_strlit("CPU");
    spelled_out("CPU"@);
    reveal_strlit("MEM");
    spelled_out("MEM"@);
    reveal_strlit("PORTS");
    spelled_out("PORTS"@);
    reveal_strlit("REPOSITORY");
    spelled_out("REPOSITORY"@);
    reveal_strlit("TAG");
    spelled_out("TAG"@);
    reveal_strlit("ID");
    spelled_out("ID"@);
    reveal_strlit("SIZE");
    spelled_out("SIZE"@);
    reveal_strlit("AGE");
    spelled_out("AGE"@);
    reveal_strlit("USED");
    spelled_out("USED"@);
    reveal_strlit("DRIVER");
    spelled_out("DRIVER"@);
    reveal_strlit("MOUNTPOINT");
    spelled_out("MOUNTPOINT"@);
    reveal_strlit("SCOPE");
    spelled_out("SCOPE"@);
    reveal_strlit("SUBNET");
    spelled_out("SUBNET"@);
}

pub(crate) proof fn list_words()
    ensures
        ascii("containers"@),
        ascii("images"@),
        ascii("volumes"@),
        ascii("networks"@),
        ascii("/"@),
        ascii("  "@),
        ascii(" stack"@),
        ascii(" stacks"@),
        ascii("  filtered"@),
        ascii(" "@),
        ascii("name"@),
        ascii("state"@),
        ascii("cpu"@),
        ascii("mem"@),
        ascii("size"@),
        ascii("age"@),
        ascii("driver"@),
        ascii("nothing matches this filter"@),
        ascii("no containers"@),
        ascii("no running containers  (press a to show stopped)"@),
        ascii("no images"@),
        ascii("no volumes"@),
        ascii("no networks"@),
{
    reveal_with_fuel(ascii_so_far, 80);
    reveal_strlit("containers");
    spelled_out("containers"@);
    reveal_strlit("images");
    spelled_out("images"@);
    reveal_strlit("volumes");
    spelled_out("volumes"@);
    reveal_strlit("networks");
    spelled_out("networks"@);
    reveal_strlit("/");
    spelled_out("/"@);
    reveal_strlit("  ");
    spelled_out("  "@);
    reveal_strlit(" stack");
    spelled_out(" stack"@);
    reveal_strlit(" stacks");
    spelled_out(" stacks"@);
    reveal_strlit("  filtered");
    spelled_out("  filtered"@);
    reveal_strlit(" ");
    spelled_out(" "@);
    reveal_strlit("name");
    spelled_out("name"@);
    reveal_strlit("state");
    spelled_out("state"@);
    reveal_strlit("cpu");
    spelled_out("cpu"@);
    reveal_strlit("mem");
    spelled_out("mem"@);
    reveal_strlit("size");
    spelled_out("size"@);
    reveal_strlit("age");
    spelled_out("age"@);
    reveal_strlit("driver");
    spelled_out("driver"@);
    reveal_strlit("nothing matches this filter");
    spelled_out("nothing matches this filter"@);
    reveal_strlit("no containers");
    spelled_out("no containers"@);
    reveal_strlit("no running containers  (press a to show stopped)");
    spelled_out("no running containers  (press a to show stopped)"@);
    reveal_strlit("no images");
    spelled_out("no images"@);
    reveal_strlit("no volumes");
    spelled_out("no volumes"@);
    reveal_strlit("no networks");
    spelled_out("no networks"@);
}

pub(crate) proof fn gauge_words()
    ensures
        ascii("cpu "@),
        ascii("%"@),
        ascii("mem "@),
        ascii("of "@),
        ascii("   "@),
        ascii("net "@),
        ascii(" "@),
        ascii("   disk "@),
        ascii("   pids "@),
{
    reveal_with_fuel(ascii_so_far, 80);
    reveal_strlit("cpu ");
    spelled_out("cpu "@);
    reveal_strlit("%");
    spelled_out("%"@);
    reveal_strlit("mem ");
    spelled_out("mem "@);
    reveal_strlit("of ");
    spelled_out("of "@);
    reveal_strlit("   ");
    spelled_out("   "@);
    reveal_strlit("net ");
    spelled_out("net "@);
    reveal_strlit(" ");
    spelled_out(" "@);
    reveal_strlit("   disk ");
    spelled_out("   disk "@);
    reveal_strlit("   pids ");
    spelled_out("   pids "@);
}

pub(crate) proof fn detail_words()
    ensures
        ascii(""@),
        ascii("nothing selected"@),
        ascii(" "@),
        ascii("created"@),
        ascii("compose"@),
        ascii("health"@),
        ascii("healthy"@),
        ascii("unhealthy"@),
        ascii("starting"@),
        ascii("id"@),
        ascii("image"@),
        ascii("image id"@),
        ascii("state"@),
        ascii("stack"@),
        ascii(" / "@),
        ascii("PORTS"@),
        ascii("none published"@),
        ascii("NETWORKS"@),
        ascii("MOUNTS"@),
        ascii("COMMAND"@),
        ascii("size"@),
        ascii("shared"@),
        ascii("in use by"@),
        ascii("TAGS"@),
        ascii("driver"@),
        ascii("used by"@),
        ascii("MOUNTPOINT"@),
        ascii("scope"@),
        ascii("internal"@),
        ascii("ipv6"@),
        ascii("yes"@),
        ascii("no"@),
        ascii("SUBNETS"@),
        ascii("built-in network, cannot be removed"@),
        ascii(" container(s)"@),
        ascii("nothing"@),
        ascii(":"@),
        ascii("  "@),
        ascii("services"@),
        ascii(" (folded)"@),
        ascii("running"@),
        ascii("/"@),
        ascii("cpu"@),
        ascii("%"@),
        ascii("memory"@),
        ascii("SERVICES"@),
        ascii("standalone"@),
        ascii("details"@),
{
    reveal_with_fuel(ascii_so_far, 80);
    reveal_strlit("");
    spelled_out(""@);
    reveal_strlit("nothing selected");
    spelled_out("nothing selected"@);
    reveal_strlit(" ");
    spelled_out(" "@);
    reveal_strlit("created");
    spelled_out("created"@);
    reveal_strlit("compose");
    spelled_out("compose"@);
    reveal_strlit("health");
    spelled_out("health"@);
    reveal_strlit("healthy");
    spelled_out("healthy"@);
    reveal_strlit("unhealthy");
    spelled_out("unhealthy"@);
    reveal_strlit("starting");
    spelled_out("starting"@);
    reveal_strlit("id");
    spelled_out("id"@);
    reveal_strlit("image");
    spelled_out("image"@);
    reveal_strlit("image id");
    spelled_out("image id"@);
    reveal_strlit("state");
    spelled_out("state"@);
    reveal_strlit("stack");
    spelled_out("stack"@);
    reveal_strlit(" / ");
    spelled_out(" / "@);
    reveal_strlit("PORTS");
    spelled_out("PORTS"@);
    reveal_strlit("none published");
    spelled_out("none published"@);
    reveal_strlit("NETWORKS");
    spelled_out("NETWORKS"@);
    reveal_strlit("MOUNTS");
    spelled_out("MOUNTS"@);
    reveal_strlit("COMMAND");
    spelled_out("COMMAND"@);
    reveal_strlit("size");
    spelled_out("size"@);
    reveal_strlit("shared");
    spelled_out("shared"@);
    reveal_strlit("in use by");
    spelled_out("in use by"@);
    reveal_strlit("TAGS");
    spelled_out("TAGS"@);
    reveal_strlit("driver");
    spelled_out("driver"@);
    reveal_strlit("used by");
    spelled_out("used by"@);
    reveal_strlit("MOUNTPOINT");
    spelled_out("MOUNTPOINT"@);
    reveal_strlit("scope");
    spelled_out("scope"@);
    reveal_strlit("internal");
    spelled_out("internal"@);
    reveal_strlit("ipv6");
    spelled_out("ipv6"@);
    reveal_strlit("yes");
    spelled_out("yes"@);
    reveal_strlit("no");
    spelled_out("no"@);
    reveal_strlit("SUBNETS");
    spelled_out("SUBNETS"@);
    reveal_strlit("built-in network, cannot be removed");
    spelled_out("built-in network, cannot be removed"@);
    reveal_strlit(" container(s)");
    spelled_out(" container(s)"@);
    reveal_strlit("nothing");
    spelled_out("nothing"@);
    reveal_strlit(":");
    spelled_out(":"@);
    reveal_strlit("  ");
    spelled_out("  "@);
    reveal_strlit("services");
    spelled_out("services"@);
    reveal_strlit(" (folded)");
    spelled_out(" (folded)"@);
    reveal_strlit("running");
    spelled_out("running"@);
    reveal_strlit("/");
    spelled_out("/"@);
    reveal_strlit("cpu");
    spelled_out("cpu"@);
    reveal_strlit("%");
    spelled_out("%"@);
    reveal_strlit("memory");
    spelled_out("memory"@);
    reveal_strlit("SERVICES");
    spelled_out("SERVICES"@);
    reveal_strlit("standalone");
    spelled_out("standalone"@);
    reveal_strlit("details");
    spelled_out("details"@);
}

pub(crate) proof fn log_words()
    ensures
        ascii(" "@),
        ascii("following"@),
        ascii("paused "@),
        ascii(" lines back"@),
        ascii("wrap"@),
        ascii("  "@),
        ascii("-"@),
        ascii("logs"@),
        ascii(" attaching"@),
        ascii("no container selected"@),
        ascii("no output yet"@),
{
    reveal_with_fuel(ascii_so_far, 80);
    reveal_strlit(" ");
    spelled_out(" "@);
    reveal_strlit("following");
    spelled_out("following"@);
    reveal_strlit("paused ");
    spelled_out("paused "@);
    reveal_strlit(" lines back");
    spelled_out(" lines back"@);
    reveal_strlit("wrap");
    spelled_out("wrap"@);
    reveal_strlit("  ");
    spelled_out("  "@);
    reveal_strlit("-");
    spelled_out("-"@);
    reveal_strlit("logs");
    spelled_out("logs"@);
    reveal_strlit(" attaching");
    spelled_out(" attaching"@);
    reveal_strlit("no container selected");
    spelled_out("no container selected"@);
    reveal_strlit("no output yet");
    spelled_out("no output yet"@);
}

pub(crate) proof fn question_words()
    ensures
        ascii("Kill container?"@),
        ascii(" will be sent SIGKILL and stopped immediately."@),
        ascii("Remove container?"@),
        ascii(" will be deleted. Anonymous volumes are kept."@),
        ascii("Remove image?"@),
        ascii(" will be deleted."@),
        ascii("Remove volume?"@),
        ascii(" and everything stored in it will be deleted."@),
        ascii("Remove network?"@),
        ascii("Prune containers?"@),
        ascii("Every stopped container will be deleted."@),
        ascii("Prune images?"@),
        ascii("Every dangling image will be deleted."@),
        ascii("Prune volumes?"@),
        ascii("Every volume not used by a container will be deleted, along with its data."@),
        ascii("Prune networks?"@),
        ascii("Every network not used by a container will be deleted."@),
        ascii("Are you sure?"@),
        ascii("starting "@),
        ascii("stopping "@),
        ascii("restarting "@),
        ascii("pausing "@),
        ascii("resuming "@),
        ascii("  y  yes  "@),
        ascii("  n / esc  cancel  "@),
{
    reveal_with_fuel(ascii_so_far, 80);
    reveal_strlit("Kill container?");
    spelled_out("Kill container?"@);
    reveal_strlit(" will be sent SIGKILL and stopped immediately.");
    spelled_out(" will be sent SIGKILL and stopped immediately."@);
    reveal_strlit("Remove container?");
    spelled_out("Remove container?"@);
    reveal_strlit(" will be deleted. Anonymous volumes are kept.");
    spelled_out(" will be deleted. Anonymous volumes are kept."@);
    reveal_strlit("Remove image?");
    spelled_out("Remove image?"@);
    reveal_strlit(" will be deleted.");
    spelled_out(" will be deleted."@);
    reveal_strlit("Remove volume?");
    spelled_out("Remove volume?"@);
    reveal_strlit(" and everything stored in it will be deleted.");
    spelled_out(" and everything stored in it will be deleted."@);
    reveal_strlit("Remove network?");
    spelled_out("Remove network?"@);
    reveal_strlit("Prune containers?");
    spelled_out("Prune containers?"@);
    reveal_strlit("Every stopped container will be deleted.");
    spelled_out("Every stopped container will be deleted."@);
    reveal_strlit("Prune images?");
    spelled_out("Prune images?"@);
    reveal_strlit("Every dangling image will be deleted.");
    spelled_out("Every dangling image will be deleted."@);
    reveal_strlit("Prune volumes?");
    spelled_out("Prune volumes?"@);
    reveal_strlit("Every volume not used by a container will be deleted, along with its data.");
    spelled_out("Every volume not used by a container will be deleted, along with its data."@);
    reveal_strlit("Prune networks?");
    spelled_out("Prune networks?"@);
    reveal_strlit("Every network not used by a container will be deleted.");
    spelled_out("Every network not used by a container will be deleted."@);
    reveal_strlit("Are you sure?");
    spelled_out("Are you sure?"@);
    reveal_strlit("starting ");
    spelled_out("starting "@);
    reveal_strlit("stopping ");
    spelled_out("stopping "@);
    reveal_strlit("restarting ");
    spelled_out("restarting "@);
    reveal_strlit("pausing ");
    spelled_out("pausing "@);
    reveal_strlit("resuming ");
    spelled_out("resuming "@);
    reveal_strlit("  y  yes  ");
    spelled_out("  y  yes  "@);
    reveal_strlit("  n / esc  cancel  ");
    spelled_out("  n / esc  cancel  "@);
}

pub(crate) proof fn message_words()
    ensures
        ascii("refreshing"@),
        ascii("that row is a stack "@),
        ascii(" pick a container in it"@),
        ascii("started "@),
        ascii("stopped "@),
        ascii("restarted "@),
        ascii("paused "@),
        ascii("resumed "@),
        ascii("killed "@),
        ascii("removed container "@),
        ascii("removed image "@),
        ascii("removed volume "@),
        ascii("removed network "@),
        ascii("done"@),
        ascii("pruned "@),
        ascii(""@),
        ascii("s"@),
        ascii(" ("@),
        ascii(" reclaimed)"@),
        ascii(" container"@),
        ascii(" image"@),
        ascii(" volume"@),
        ascii(" network"@),
{
    reveal_with_fuel(ascii_so_far, 80);
    reveal_strlit("refreshing");
    spelled_out("refreshing"@);
    reveal_strlit("that row is a stack ");
    spelled_out("that row is a stack "@);
    reveal_strlit(" pick a container in it");
    spelled_out(" pick a container in it"@);
    reveal_strlit("started ");
    spelled_out("started "@);
    reveal_strlit("stopped ");
    spelled_out("stopped "@);
    reveal_strlit("restarted ");
    spelled_out("restarted "@);
    reveal_strlit("paused ");
    spelled_out("paused "@);
    reveal_strlit("resumed ");
    spelled_out("resumed "@);
    reveal_strlit("killed ");
    spelled_out("killed "@);
    reveal_strlit("removed container ");
    spelled_out("removed container "@);
    reveal_strlit("removed image ");
    spelled_out("removed image "@);
    reveal_strlit("removed volume ");
    spelled_out("removed volume "@);
    reveal_strlit("removed network ");
    spelled_out("removed network "@);
    reveal_strlit("done");
    spelled_out("done"@);
    reveal_strlit("pruned ");
    spelled_out("pruned "@);
    reveal_strlit("");
    spelled_out(""@);
    reveal_strlit("s");
    spelled_out("s"@);
    reveal_strlit(" (");
    spelled_out(" ("@);
    reveal_strlit(" reclaimed)");
    spelled_out(" reclaimed)"@);
    reveal_strlit(" container");
    spelled_out(" container"@);
    reveal_strlit(" image");
    spelled_out(" image"@);
    reveal_strlit(" volume");
    spelled_out(" volume"@);
    reveal_strlit(" network");
    spelled_out(" network"@);
}

pub(crate) proof fn overlay_words()
    ensures
        ascii(" "@),
        ascii("docker "@),
        ascii(" api "@),
        ascii("/"@),
        ascii(""@),
        ascii("containers"@),
        ascii("any tab"@),
        ascii(" / "@),
        ascii("  "@),
        ascii("keybindings"@),
        ascii("  any key to close"@),
        ascii("      "@),
        ascii("   "@),
        ascii("commands"@),
{
    reveal_with_fuel(ascii_so_far, 80);
    reveal_strlit(" ");
    spelled_out(" "@);
    reveal_strlit("docker ");
    spelled_out("docker "@);
    reveal_strlit(" api ");
    spelled_out(" api "@);
    reveal_strlit("/");
    spelled_out("/"@);
    reveal_strlit("");
    spelled_out(""@);
    reveal_strlit("containers");
    spelled_out("containers"@);
    reveal_strlit("any tab");
    spelled_out("any tab"@);
    reveal_strlit(" / ");
    spelled_out(" / "@);
    reveal_strlit("  ");
    spelled_out("  "@);
    reveal_strlit("keybindings");
    spelled_out("keybindings"@);
    reveal_strlit("  any key to close");
    spelled_out("  any key to close"@);
    reveal_strlit("      ");
    spelled_out("      "@);
    reveal_strlit("   ");
    spelled_out("   "@);
    reveal_strlit("commands");
    spelled_out("commands"@);
}

pub(crate) proof fn frame_words()
    ensures
        ascii("terminal too small"@),
{
    reveal_with_fuel(ascii_so_far, 80);
    reveal_strlit("terminal too small");
    spelled_out("terminal too small"@);
}

} // verus!
