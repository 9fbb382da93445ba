//! What the rows, readings and lines have to do with what the daemon said.

use vstd::prelude::*;
use vstd::utf8::{encode_utf8, is_ascii_chars};

use crate::app::ToastKind;
use crate::docker::exec::{session_toast, OutcomeView};
use crate::docker::logs::{
    leftovers, line_of, newline, raw_time, stamped, stream_of, timestamp_shaped, unfinished,
    whole_lines, without_cr, FrameKind, Stream,
};
use crate::docker::model::{
    container_from, display_name, health_named, image_row, images_from, label_of, network_from,
    network_users, occurrences, port_text_with, predefined, reference_text, repo_and_tag,
    state_named, tagged_rows, volume_from, volume_users, without_slashes, ContainerSummaryView,
    ContainerView, Health, ImageSummaryView, ImageView, NetworkSummaryView, PortView, State,
    VolumeSummaryView,
};
use crate::docker::refresh::{
    all_images, by_container_name, by_image_age, by_network_name, by_volume_name, or_none,
    poll_events, snapshot_of, SnapshotView,
};
use crate::docker::stats::{
    counter, is_streaming, is_wanted, reading_of, stays, to_abort, to_start, BlkioEntry,
    MemoryStats, NetworkStats, StatsFrame, TaskView,
};
use crate::docker::usage::{field_in, sizes_in, sizes_of, Json, VolumesDiskUsage};
use crate::docker::{friendly, shortened, shortened_after, ApiErrorView};
use crate::event::AppEventView;
use crate::order::{key_le, sorted_by, sorting_keeps_members, sorting_orders};
use crate::text::{after_last, dec, find, hex_digit, lower_all, text_le, trim};

verus! {

broadcast use vstd::string::group_string_axioms;

// ---------------------------------------------------------------------------
// Readings
// ---------------------------------------------------------------------------

/// The number that was given; zero where none was.
pub open spec fn given(n: Option<u64>) -> int {
    match n {
        Some(v) => v as int,
        None => 0,
    }
}

/// There is a reading exactly where there is a baseline, and then the time used and the
/// time that went by are what lies between the two sections of the frame.
pub proof fn readings_measure_what_went_by(raw: StatsFrame)
    ensures
        raw.cpu_stats is None || raw.precpu_stats is None ==> reading_of(raw) is None,
        raw.cpu_stats matches Some(cpu) ==> raw.precpu_stats matches Some(pre) ==> ({
            &&& reading_of(raw) is Some <==> given(pre.system_cpu_usage) > 0 && given(
                cpu.system_cpu_usage,
            ) > given(pre.system_cpu_usage) && given(cpu.total_usage) >= given(pre.total_usage)
            &&& reading_of(raw) matches Some(r) ==> {
                &&& r.cpu_delta + given(pre.total_usage) == given(cpu.total_usage)
                &&& r.system_delta + given(pre.system_cpu_usage) == given(cpu.system_cpu_usage)
                &&& cpu.online_cpus matches Some(n) ==> n > 0 ==> r.cores == n
                &&& cpu.online_cpus is None ==> (cpu.percpu_cores matches Some(n) ==> n > 0
                    ==> r.cores == n)
                &&& cpu.online_cpus is None && cpu.percpu_cores is None ==> r.cores == 1
                &&& r.pids == given(raw.pids)
            }
        }),
{
}

/// The memory in use is what is charged, less the page cache, by whichever of its two
/// names it goes; the limit is the limit.
pub proof fn memory_leaves_out_the_cache(raw: StatsFrame, m: MemoryStats)
    requires
        reading_of(raw) is Some,
        raw.memory_stats == Some(m),
    ensures
        (reading_of(raw)->0).mem_limit == given(m.limit),
        counter(m.stats@, "inactive_file"@) matches Some(cache) ==> cache <= given(m.usage) ==> (
        reading_of(raw)->0).mem_bytes + cache == given(m.usage),
        counter(m.stats@, "inactive_file"@) is None ==> (counter(
            m.stats@,
            "total_inactive_file"@,
        ) matches Some(cache) ==> cache <= given(m.usage) ==> (reading_of(raw)->0).mem_bytes + cache
            == given(m.usage)),
        counter(m.stats@, "inactive_file"@) is None && counter(m.stats@, "total_inactive_file"@)
            is None ==> (reading_of(raw)->0).mem_bytes == given(m.usage),
{
}

/// A counter is found under its name, the first of that name.
pub proof fn counters_go_by_their_names(stats: Seq<(String, u64)>, name: Seq<char>, i: int)
    requires
        0 <= i < stats.len(),
        stats[i].0@ == name,
        forall|k: int| 0 <= k < i ==> (#[trigger] stats[k]).0@ != name,
    ensures
        counter(stats, name) == Some(stats[i].1),
    decreases i,
{
    if i > 0 {
        assert(stats[0].0@ != name);
        let rest = stats.drop_first();
        assert forall|k: int| 0 <= k < i - 1 implies (#[trigger] rest[k]).0@ != name by {
            assert(rest[k] == stats[k + 1]);
        }
        counters_go_by_their_names(rest, name, i - 1);
    }
}

/// One interface more adds what it received to what was received and what it sent to
/// what was sent, as far as that can be counted; without any there is no traffic.
pub proof fn interfaces_add_their_traffic(raw: StatsFrame, more: StatsFrame, net: NetworkStats)
    requires
        more.cpu_stats == raw.cpu_stats,
        more.precpu_stats == raw.precpu_stats,
        more.networks@ == raw.networks@.push(net),
        reading_of(raw) is Some,
    ensures
        reading_of(more) is Some,
        (reading_of(raw)->0).net_rx + given(net.rx_bytes) <= u64::MAX ==> (reading_of(
            more,
        )->0).net_rx == (reading_of(raw)->0).net_rx + given(net.rx_bytes),
        (reading_of(raw)->0).net_tx + given(net.tx_bytes) <= u64::MAX ==> (reading_of(
            more,
        )->0).net_tx == (reading_of(raw)->0).net_tx + given(net.tx_bytes),
        raw.networks@.len() == 0 ==> (reading_of(raw)->0).net_rx == 0 && (reading_of(
            raw,
        )->0).net_tx == 0,
{
    same_traffic(raw.networks@, more.networks@, raw.networks@.len() as int);
}

proof fn same_traffic(a: Seq<NetworkStats>, b: Seq<NetworkStats>, n: int)
    requires
        0 <= n <= a.len(),
        n <= b.len(),
        forall|k: int| 0 <= k < n ==> a[k] == b[k],
    ensures
        crate::docker::stats::received(a, n) == crate::docker::stats::received(b, n),
        crate::docker::stats::sent(a, n) == crate::docker::stats::sent(b, n),
    decreases n,
{
    if n > 0 {
        same_traffic(a, b, n - 1);
        assert(a[n - 1] == b[n - 1]);
    }
}

/// One counter more of reads adds to what was read, one of writes to what was written,
/// however the word is written, and any other adds to neither.
pub proof fn counters_add_to_what_they_count(raw: StatsFrame, more: StatsFrame, entry: BlkioEntry)
    requires
        more.cpu_stats == raw.cpu_stats,
        more.precpu_stats == raw.precpu_stats,
        more.blkio@ == raw.blkio@.push(entry),
        reading_of(raw) is Some,
    ensures
        reading_of(more) is Some,
        ({
            let (before, after) = (reading_of(raw)->0, reading_of(more)->0);
            let reads = entry.op matches Some(op) && lower_all(op@) == "read"@;
            let writes = entry.op matches Some(op) && lower_all(op@) == "write"@;
            &&& !reads ==> after.block_read == before.block_read
            &&& !writes ==> after.block_write == before.block_write
            &&& reads && before.block_read + given(entry.value) <= u64::MAX ==> after.block_read
                == before.block_read + given(entry.value)
            &&& writes && before.block_write + given(entry.value) <= u64::MAX ==> after.block_write
                == before.block_write + given(entry.value)
            &&& raw.blkio@.len() == 0 ==> before.block_read == 0 && before.block_write == 0
        }),
{
    same_counters(raw.blkio@, more.blkio@, "read"@, raw.blkio@.len() as int);
    same_counters(raw.blkio@, more.blkio@, "write"@, raw.blkio@.len() as int);
}

proof fn same_counters(a: Seq<BlkioEntry>, b: Seq<BlkioEntry>, op: Seq<char>, n: int)
    requires
        0 <= n <= a.len(),
        n <= b.len(),
        forall|k: int| 0 <= k < n ==> a[k] == b[k],
    ensures
        crate::docker::stats::moved(a, op, n) == crate::docker::stats::moved(b, op, n),
    decreases n,
{
    if n > 0 {
        same_counters(a, b, op, n - 1);
        assert(a[n - 1] == b[n - 1]);
    }
}

// ---------------------------------------------------------------------------
// Log lines
// ---------------------------------------------------------------------------

proof fn newline_after(line: Seq<u8>, rest: Seq<u8>, from: int)
    requires
        0 <= from <= line.len(),
        forall|i: int| 0 <= i < line.len() ==> line[i] != 0x0A,
    ensures
        newline(line + seq![0x0Au8] + rest, from) == line.len(),
        newline(line, from) == line.len(),
    decreases line.len() - from,
{
    let all = line + seq![0x0Au8] + rest;
    if from < line.len() {
        newline_after(line, rest, from + 1);
        assert(all[from] == line[from]);
    } else {
        assert(all[from] == 0x0A);
    }
}

/// Bytes up to a newline are a line, and what follows is read on by itself; bytes
/// without a newline are no line yet, and are kept.
pub proof fn lines_end_at_newlines(line: Seq<u8>, rest: Seq<u8>)
    requires
        forall|i: int| 0 <= i < line.len() ==> line[i] != 0x0A,
    ensures
        whole_lines(line + seq![0x0Au8] + rest) == seq![line] + whole_lines(rest),
        unfinished(line + seq![0x0Au8] + rest) == unfinished(rest),
        whole_lines(line).len() == 0,
        unfinished(line) == line,
{
    let all = line + seq![0x0Au8] + rest;
    newline_after(line, rest, 0);
    assert(all.take(line.len() as int) =~= line);
    assert(all.skip(line.len() as int + 1) =~= rest);
}

proof fn space_after(word: Seq<char>, text: Seq<char>, from: int)
    requires
        0 <= from <= word.len(),
        !word.contains(' '),
    ensures
        find(word + seq![' '] + text, ' ', from) == word.len(),
    decreases word.len() - from,
{
    let all = word + seq![' '] + text;
    if from < word.len() {
        assert(word.contains(word[from]));
        assert(all[from] == word[from]);
        space_after(word, text, from + 1);
    } else {
        assert(all[from] == ' ');
    }
}

/// A timestamp and a space in front of a line come off it, whatever the line says, and
/// the time is kept beside it: in the viewer's own zone where it can be read.
pub proof fn timestamps_come_off(
    word: Seq<char>,
    text: Seq<char>,
    stream: Stream,
    clock: Seq<char>,
)
    requires
        !word.contains(' '),
        timestamp_shaped(word),
    ensures
        line_of(word + seq![' '] + text, stream, Some(clock)).text == text,
        line_of(word + seq![' '] + text, stream, Some(clock)).timestamp == Some(clock),
        line_of(word + seq![' '] + text, stream, Some(clock)).stream == stream,
        line_of(word + seq![' '] + text, stream, None).text == text,
        line_of(word + seq![' '] + text, stream, None).timestamp is Some,
{
    let raw = word + seq![' '] + text;
    space_after(word, text, 0);
    assert(raw.take(word.len() as int) =~= word);
    assert(raw.skip(word.len() as int + 1) =~= text);
}

/// A line that does not start with a timestamp is left as it is.
pub proof fn other_lines_stay_as_they_are(
    raw: Seq<char>,
    stream: Stream,
    clock: Option<Seq<char>>,
)
    requires
        !stamped(raw),
    ensures
        line_of(raw, stream, clock).text == raw,
        line_of(raw, stream, clock).timestamp is None,
        line_of(raw, stream, clock).stream == stream,
{
}

/// What is shaped like a timestamp, in ASCII: at least as long as the shortest, with its
/// dashes, its `T` and its colon in place, and a digit in front.
pub proof fn timestamps_look_like_this(word: Seq<char>)
    requires
        is_ascii_chars(word),
        word.len() >= 20,
    ensures
        timestamp_shaped(word) <==> '0' <= word[0] <= '9' && word[4] == '-' && word[7] == '-'
            && word[10] == 'T' && word[13] == ':',
{
    vstd::utf8::is_ascii_chars_encode_utf8(word);
    let b = encode_utf8(word);
    assert(b[4] == word[4] as u8);
    assert(b[7] == word[7] as u8);
    assert(b[10] == word[10] as u8);
    assert(b[13] == word[13] as u8);
}

/// What a container writes to its error stream is shown as such, and what it writes to
/// its output or its terminal is not.
pub proof fn streams_are_told_apart(kind: FrameKind)
    ensures
        stream_of(kind) == Some(Stream::Stderr) <==> kind == FrameKind::StdErr,
        stream_of(kind) == Some(Stream::Stdout) <==> kind == FrameKind::StdOut || kind
            == FrameKind::Console,
{
}

// ---------------------------------------------------------------------------
// Rows
// ---------------------------------------------------------------------------

/// A state reads back from its own word, and no other word names one.
pub proof fn states_read_back(state: State, word: Seq<char>)
    ensures
        state_named(Some(state.label_text())) == state,
        state_named(Some(word)) == state && state != State::Unknown ==> word == state.label_text(),
        state_named(None) == State::Unknown,
{
    reveal_strlit("running");
    reveal_strlit("restarting");
    reveal_strlit("paused");
    reveal_strlit("created");
    reveal_strlit("stopping");
    reveal_strlit("removing");
    reveal_strlit("exited");
    reveal_strlit("dead");
    reveal_strlit("unknown");
    let s = state.label_text();
    assert(s.len() > 0);
    assert(s == "running"@ ==> s[0] == 'r' && s[1] == 'u');
    assert(s == "restarting"@ ==> s[0] == 'r' && s[1] == 'e' && s[2] == 's');
    assert(s == "paused"@ ==> s[0] == 'p');
    assert(s == "created"@ ==> s[0] == 'c');
    assert(s == "stopping"@ ==> s[0] == 's');
    assert(s == "removing"@ ==> s[0] == 'r' && s[1] == 'e' && s[2] == 'm');
    assert(s == "exited"@ ==> s[0] == 'e');
    assert(s == "dead"@ ==> s[0] == 'd');
    assert(s == "unknown"@ ==> s[0] == 'u');
}

/// A health is what its word says, and is absent without one.
pub proof fn healths_go_by_their_words(word: Seq<char>)
    ensures
        health_named(Some(word)) == Health::Healthy <==> word == "healthy"@,
        health_named(Some(word)) == Health::Unhealthy <==> word == "unhealthy"@,
        health_named(Some(word)) == Health::Starting <==> word == "starting"@,
        health_named(None) == Health::Absent,
{
    reveal_strlit("healthy");
    reveal_strlit("unhealthy");
    reveal_strlit("starting");
    assert("healthy"@.len() == 7 && "unhealthy"@.len() == 9 && "starting"@.len() == 8);
}

/// What is up and what can be stopped.
pub proof fn states_mean_what_they_say(state: State)
    ensures
        state.running() <==> state == State::Running || state == State::Restarting,
        state.live() <==> state.running() || state == State::Paused || state == State::Stopping,
{
}

/// Each field of a container's row is what the daemon said of it under that name.
pub proof fn container_rows_say_what_the_daemon_said(c: ContainerSummaryView)
    ensures
        c.id matches Some(id) ==> container_from(c).id == id,
        c.image matches Some(image) ==> container_from(c).image == image,
        c.image_id matches Some(id) ==> container_from(c).image_id == id,
        c.command matches Some(command) ==> container_from(c).command == command,
        c.status matches Some(status) ==> container_from(c).status == status,
        c.created matches Some(at) ==> container_from(c).created == at,
        container_from(c).state == state_named(c.state),
        container_from(c).health == health_named(c.health),
        forall|name: Seq<char>| #[trigger]
            container_from(c).networks.contains(name) <==> c.networks.contains(name),
{
    assert forall|name: Seq<char>| #[trigger]
        container_from(c).networks.contains(name) <==> c.networks.contains(name) by {
        sorting_keeps_members(c.networks, crate::order::by_text(), name);
    }
}

/// A container goes by the first of its names, without the slash in front of it.
pub proof fn containers_go_by_their_first_name(names: Seq<Seq<char>>, name: Seq<char>)
    requires
        names.len() > 0,
        names[0] == seq!['/'] + name,
        name.len() > 0,
        name[0] != '/',
    ensures
        display_name(Some(names)) == name,
{
    reveal_with_fuel(without_slashes, 2);
    assert(names[0].drop_first() =~= name);
}

proof fn label_is_found(labels: Seq<(Seq<char>, Seq<char>)>, key: Seq<char>, i: int)
    requires
        0 <= i < labels.len(),
        labels[i].0 == key,
        forall|k: int| 0 <= k < i ==> (#[trigger] labels[k]).0 != key,
    ensures
        label_of(labels, key) == Some(labels[i].1),
    decreases i,
{
    if i > 0 {
        assert(labels[0].0 != key);
        let rest = labels.drop_first();
        assert forall|k: int| 0 <= k < i - 1 implies (#[trigger] rest[k]).0 != key by {
            assert(rest[k] == labels[k + 1]);
        }
        label_is_found(rest, key, i - 1);
    }
}

proof fn no_label_is_found(labels: Seq<(Seq<char>, Seq<char>)>, key: Seq<char>)
    requires
        forall|k: int| 0 <= k < labels.len() ==> (#[trigger] labels[k]).0 != key,
    ensures
        label_of(labels, key) is None,
    decreases labels.len(),
{
    if labels.len() > 0 {
        assert(labels[0].0 != key);
        let rest = labels.drop_first();
        assert forall|k: int| 0 <= k < rest.len() implies (#[trigger] rest[k]).0 != key by {
            assert(rest[k] == labels[k + 1]);
        }
        no_label_is_found(rest, key);
    }
}

/// A container's stack is its compose project where it has one, and else the namespace
/// it was deployed into; its service is its compose service.
pub proof fn stacks_are_read_from_the_labels(c: ContainerSummaryView, i: int)
    requires
        0 <= i < c.labels.len(),
        forall|k: int| 0 <= k < i ==> (#[trigger] c.labels[k]).0 != c.labels[i].0,
    ensures
        c.labels[i].0 == "com.docker.compose.project"@ ==> container_from(c).stack == Some(
            c.labels[i].1,
        ),
        c.labels[i].0 == "com.docker.compose.service"@ ==> container_from(c).service == Some(
            c.labels[i].1,
        ),
        c.labels[i].0 == "com.docker.stack.namespace"@ && (forall|k: int|
            0 <= k < c.labels.len() ==> (#[trigger] c.labels[k]).0
                != "com.docker.compose.project"@) ==> container_from(c).stack == Some(
            c.labels[i].1,
        ),
{
    label_is_found(c.labels, c.labels[i].0, i);
    if forall|k: int|
        0 <= k < c.labels.len() ==> (#[trigger] c.labels[k]).0 != "com.docker.compose.project"@ {
        no_label_is_found(c.labels, "com.docker.compose.project"@);
    }
}

/// Without a label that says so, a container is in no stack.
pub proof fn unlabelled_containers_stand_alone(c: ContainerSummaryView)
    requires
        forall|k: int|
            0 <= k < c.labels.len() ==> (#[trigger] c.labels[k]).0 != "com.docker.compose.project"@
                && c.labels[k].0 != "com.docker.stack.namespace"@,
    ensures
        container_from(c).stack is None,
{
    no_label_is_found(c.labels, "com.docker.compose.project"@);
    no_label_is_found(c.labels, "com.docker.stack.namespace"@);
}

proof fn last_colon(front: Seq<char>, back: Seq<char>, to: int)
    requires
        !back.contains(':'),
        front.len() < to <= front.len() + 1 + back.len(),
    ensures
        after_last(front + seq![':'] + back, ':', to) == front.len() + 1,
    decreases to,
{
    let all = front + seq![':'] + back;
    if to > front.len() + 1 {
        assert(all[to - 1] == back[to - 2 - front.len()]);
        assert(back.contains(back[to - 2 - front.len()]));
        last_colon(front, back, to - 1);
    } else {
        assert(all[to - 1] == ':');
    }
}

/// `repository:tag` is told apart at the colon in front of the tag, also where the
/// repository names a registry's port.
pub proof fn references_are_told_apart(repository: Seq<char>, tag: Seq<char>)
    requires
        !tag.contains(':'),
        !tag.contains('/'),
    ensures
        repo_and_tag(repository + seq![':'] + tag) == (repository, tag),
{
    let t = repository + seq![':'] + tag;
    last_colon(repository, tag, t.len() as int);
    assert(t.skip(repository.len() as int + 1) =~= tag);
    assert(t.take(repository.len() as int) =~= repository);
}

proof fn no_colon(s: Seq<char>, to: int)
    requires
        !s.contains(':'),
        0 <= to <= s.len(),
    ensures
        after_last(s, ':', to) == 0,
    decreases to,
{
    if to > 0 {
        assert(s.contains(s[to - 1]));
        no_colon(s, to - 1);
    }
}

/// A reference that names no tag means the latest.
pub proof fn references_without_a_tag_mean_the_latest(repository: Seq<char>)
    requires
        !repository.contains(':'),
    ensures
        repo_and_tag(repository) == (repository, "latest"@),
{
    no_colon(repository, repository.len() as int);
}

/// Each row of an image has what the daemon said of it: its id, size, age and users.
pub proof fn image_rows_say_what_the_daemon_said(img: ImageSummaryView, i: int)
    requires
        0 <= i < images_from(img).len(),
    ensures
        images_from(img)[i].id == img.id,
        images_from(img)[i].size == img.size,
        images_from(img)[i].shared_size == img.shared_size,
        images_from(img)[i].created == img.created,
        images_from(img)[i].containers == img.containers,
        images_from(img)[i].all_tags == img.repo_tags,
{
    let tagged = tagged_rows(img, img.repo_tags.len() as int);
    tagged_rows_say(img, img.repo_tags.len() as int);
    if tagged.len() > 0 {
        assert(images_from(img)[i] == tagged[i]);
    }
}

proof fn tagged_rows_say(img: ImageSummaryView, n: int)
    requires
        0 <= n <= img.repo_tags.len(),
    ensures
        forall|i: int|
            0 <= i < tagged_rows(img, n).len() ==> #[trigger] tagged_rows(img, n)[i] == image_row(
                img,
                tagged_rows(img, n)[i].repository,
                tagged_rows(img, n)[i].tag,
                false,
            ),
    decreases n,
{
    if n > 0 {
        tagged_rows_say(img, n - 1);
        let low = tagged_rows(img, n - 1);
        let all = tagged_rows(img, n);
        assert forall|i: int| 0 <= i < all.len() implies #[trigger] all[i] == image_row(
            img,
            all[i].repository,
            all[i].tag,
            false,
        ) by {
            if i < low.len() {
                assert(all[i] == low[i]);
            }
        }
    }
}

/// Each tag that names something has a row, which goes by it; an image without one has a
/// single row, which dangles.
pub proof fn every_tag_has_a_row(img: ImageSummaryView, repository: Seq<char>, tag: Seq<char>)
    requires
        !tag.contains(':'),
        !tag.contains('/'),
        repository + seq![':'] + tag != "<none>:<none>"@,
    ensures
        img.repo_tags.contains(repository + seq![':'] + tag) ==> exists|i: int|
            0 <= i < images_from(img).len() && (#[trigger] images_from(img)[i]).repository
                == repository && images_from(img)[i].tag == tag && !images_from(img)[i].dangling,
        img.repo_tags.len() == 0 ==> images_from(img).len() == 1 && images_from(img)[0].dangling,
{
    let t = repository + seq![':'] + tag;
    references_are_told_apart(repository, tag);
    if img.repo_tags.contains(t) {
        let k = choose|k: int| 0 <= k < img.repo_tags.len() && img.repo_tags[k] == t;
        let all = tagged_rows(img, img.repo_tags.len() as int);
        tag_row_at(img, k, img.repo_tags.len() as int);
        let i = choose|i: int|
            0 <= i < all.len() && #[trigger] all[i] == image_row(img, repository, tag, false);
        assert(images_from(img)[i].repository == repository);
    }
}

proof fn tag_row_at(img: ImageSummaryView, k: int, n: int)
    requires
        0 <= k < n <= img.repo_tags.len(),
        img.repo_tags[k] != "<none>:<none>"@,
    ensures
        exists|i: int|
            0 <= i < tagged_rows(img, n).len() && #[trigger] tagged_rows(img, n)[i] == image_row(
                img,
                repo_and_tag(img.repo_tags[k]).0,
                repo_and_tag(img.repo_tags[k]).1,
                false,
            ),
    decreases n,
{
    let low = tagged_rows(img, n - 1);
    let all = tagged_rows(img, n);
    let row = image_row(
        img,
        repo_and_tag(img.repo_tags[k]).0,
        repo_and_tag(img.repo_tags[k]).1,
        false,
    );
    if k < n - 1 {
        tag_row_at(img, k, n - 1);
        let i = choose|i: int| 0 <= i < low.len() && #[trigger] low[i] == row;
        assert(all[i] == row);
    } else {
        assert(all[low.len() as int] == row);
    }
}

/// Each field of a volume's row is what the daemon said of it under that name; a size
/// that was not computed is unknown.
pub proof fn volume_rows_say_what_the_daemon_said(v: VolumeSummaryView)
    ensures
        volume_from(v).name == v.name,
        volume_from(v).driver == v.driver,
        volume_from(v).mountpoint == v.mountpoint,
        volume_from(v).created == v.created_at,
        v.usage_size matches Some(n) ==> n >= 0 ==> volume_from(v).size == Some(n),
        v.usage_size matches Some(n) ==> n < 0 ==> volume_from(v).size is None,
        v.usage_size is None ==> volume_from(v).size is None,
{
}

/// Each field of a network's row is what the daemon said of it under that name.
pub proof fn network_rows_say_what_the_daemon_said(n: NetworkSummaryView)
    ensures
        n.id matches Some(id) ==> network_from(n).id == id,
        n.name matches Some(name) ==> network_from(n).name == name,
        n.driver matches Some(driver) ==> network_from(n).driver == driver,
        n.scope matches Some(scope) ==> network_from(n).scope == scope,
        n.internal matches Some(b) ==> network_from(n).internal == b,
        n.enable_ipv6 matches Some(b) ==> network_from(n).ipv6 == b,
        n.created == network_from(n).created,
        forall|k: int|
            0 <= k < n.subnets.len() ==> (#[trigger] n.subnets[k] matches Some(s)
                ==> network_from(n).subnets.contains(s)),
{
    present_are_kept(n.subnets);
}

proof fn present_are_kept(s: Seq<Option<Seq<char>>>)
    ensures
        forall|k: int|
            0 <= k < s.len() ==> (#[trigger] s[k] matches Some(t)
                ==> crate::docker::model::present(s).contains(t)),
    decreases s.len(),
{
    if s.len() > 0 {
        let rest = s.drop_last();
        let low = crate::docker::model::present(rest);
        let all = crate::docker::model::present(s);
        present_are_kept(rest);
        assert forall|k: int| 0 <= k < s.len() implies (#[trigger] s[k] matches Some(t)
            ==> all.contains(t)) by {
            if let Some(t) = s[k] {
                if k < rest.len() {
                    assert(rest[k] == s[k]);
                    assert(low.contains(t));
                    let j = choose|j: int| 0 <= j < low.len() && low[j] == t;
                    assert(all[j] == t);
                } else {
                    assert(all[all.len() - 1] == t);
                }
            }
        }
    }
}

/// A container more is a user more of each volume that it mounts, and of no other; and
/// of each network that it is attached to, as often as it is.
pub proof fn containers_count_as_users(
    containers: Seq<ContainerView>,
    c: ContainerView,
    name: Seq<char>,
)
    ensures
        volume_users(Seq::empty(), name) == 0,
        c.mounts.contains(name) ==> volume_users(containers.push(c), name) == volume_users(
            containers,
            name,
        ) + 1,
        !c.mounts.contains(name) ==> volume_users(containers.push(c), name) == volume_users(
            containers,
            name,
        ),
        network_users(Seq::empty(), name) == 0,
        !c.networks.contains(name) ==> network_users(containers.push(c), name) == network_users(
            containers,
            name,
        ),
        c.networks == seq![name] ==> network_users(containers.push(c), name) == network_users(
            containers,
            name,
        ) + 1,
        c.networks.contains(name) ==> network_users(containers.push(c), name) > network_users(
            containers,
            name,
        ),
{
    assert(containers.push(c).drop_last() =~= containers);
    occurring(c.networks, name);
    if c.networks == seq![name] {
        assert(c.networks.drop_last() =~= Seq::<Seq<char>>::empty());
        assert(occurrences(c.networks.drop_last(), name) == 0);
    }
}

proof fn occurring(names: Seq<Seq<char>>, name: Seq<char>)
    ensures
        names.contains(name) <==> occurrences(names, name) > 0,
    decreases names.len(),
{
    if names.len() > 0 {
        let rest = names.drop_last();
        occurring(rest, name);
        if names.contains(name) && names.last() != name {
            let k = choose|k: int| 0 <= k < names.len() && names[k] == name;
            assert(rest[k] == name);
        }
        if rest.contains(name) {
            let k = choose|k: int| 0 <= k < rest.len() && rest[k] == name;
            assert(names[k] == name);
        }
        if names.last() == name {
            assert(names[names.len() - 1] == name);
        }
    }
}

// ---------------------------------------------------------------------------
// Snapshots
// ---------------------------------------------------------------------------

/// A snapshot has every container, volume and network that was listed, and nothing that
/// was not; and every row of every image.
pub proof fn snapshots_hold_what_was_listed(
    containers: Seq<ContainerSummaryView>,
    images: Option<Seq<ImageSummaryView>>,
    volumes: Option<Seq<VolumeSummaryView>>,
    networks: Option<Seq<NetworkSummaryView>>,
    k: int,
)
    ensures
        ({
            let s = snapshot_of(containers, images, volumes, networks);
            &&& s.containers.len() == containers.len()
            &&& 0 <= k < containers.len() ==> s.containers.contains(container_from(containers[k]))
            &&& volumes matches Some(all) ==> s.volumes.len() == all.len()
            &&& networks matches Some(all) ==> s.networks.len() == all.len()
            &&& volumes is None ==> s.volumes.len() == 0
            &&& networks is None ==> s.networks.len() == 0
            &&& images is None ==> s.images.len() == 0
            &&& images matches Some(all) ==> 0 <= k < all.len() ==> forall|j: int|
                0 <= j < images_from(all[k]).len() ==> s.images.contains(
                    #[trigger] images_from(all[k])[j],
                )
        }),
{
    let made = containers.map_values(|c: ContainerSummaryView| container_from(c));
    sorting_orders(made, by_container_name());
    if 0 <= k < containers.len() {
        assert(made[k] == container_from(containers[k]));
        assert(made.contains(made[k]));
        sorting_keeps_members(made, by_container_name(), made[k]);
    }
    let vols = or_none(volumes).map_values(|v: VolumeSummaryView| volume_from(v));
    sorting_orders(vols, by_volume_name());
    let nets = or_none(networks).map_values(|n: NetworkSummaryView| network_from(n));
    sorting_orders(nets, by_network_name());
    let imgs = all_images(or_none(images));
    sorting_orders(imgs, by_image_age());
    if let Some(all) = images {
        if 0 <= k < all.len() {
            assert forall|j: int| 0 <= j < images_from(all[k]).len() implies sorted_by(
                imgs,
                by_image_age(),
            ).contains(#[trigger] images_from(all[k])[j]) by {
                rows_of_every_image(all, k, j);
                sorting_keeps_members(imgs, by_image_age(), images_from(all[k])[j]);
            }
        }
    }
}

proof fn rows_of_every_image(images: Seq<ImageSummaryView>, k: int, j: int)
    requires
        0 <= k < images.len(),
        0 <= j < images_from(images[k]).len(),
    ensures
        all_images(images).contains(images_from(images[k])[j]),
    decreases images.len(),
{
    let rest = images.drop_last();
    let low = all_images(rest);
    let x = images_from(images[k])[j];
    if k < rest.len() {
        assert(rest[k] == images[k]);
        rows_of_every_image(rest, k, j);
        let i = choose|i: int| 0 <= i < low.len() && low[i] == x;
        assert(all_images(images)[i] == x);
    } else {
        assert(all_images(images)[low.len() + j] == x);
    }
}

/// A snapshot has containers, volumes and networks in name order and images from the
/// newest on.
pub proof fn snapshots_are_in_order(
    containers: Seq<ContainerSummaryView>,
    images: Option<Seq<ImageSummaryView>>,
    volumes: Option<Seq<VolumeSummaryView>>,
    networks: Option<Seq<NetworkSummaryView>>,
    a: int,
    b: int,
)
    requires
        0 <= a < b,
    ensures
        ({
            let s = snapshot_of(containers, images, volumes, networks);
            &&& b < s.containers.len() ==> text_le(s.containers[a].name, s.containers[b].name)
            &&& b < s.images.len() ==> s.images[a].created >= s.images[b].created
            &&& b < s.volumes.len() ==> text_le(s.volumes[a].name, s.volumes[b].name)
            &&& b < s.networks.len() ==> text_le(s.networks[a].name, s.networks[b].name)
        }),
{
    let made = containers.map_values(|c: ContainerSummaryView| container_from(c));
    sorting_orders(made, by_container_name());
    let cs = sorted_by(made, by_container_name());
    if b < cs.len() {
        assert(key_le(by_container_name()(cs[a]), by_container_name()(cs[b])));
        crate::text::text_le_total(cs[a].name, cs[a].name);
    }
    let imgs = all_images(or_none(images));
    sorting_orders(imgs, by_image_age());
    let is = sorted_by(imgs, by_image_age());
    if b < is.len() {
        assert(key_le(by_image_age()(is[a]), by_image_age()(is[b])));
    }
    let vols = or_none(volumes).map_values(|v: VolumeSummaryView| volume_from(v));
    sorting_orders(vols, by_volume_name());
    let vs = sorted_by(vols, by_volume_name());
    if b < vs.len() {
        assert(key_le(by_volume_name()(vs[a]), by_volume_name()(vs[b])));
        crate::text::text_le_total(vs[a].name, vs[a].name);
    }
    let nets = or_none(networks).map_values(|n: NetworkSummaryView| network_from(n));
    sorting_orders(nets, by_network_name());
    let ns = sorted_by(nets, by_network_name());
    if b < ns.len() {
        assert(key_le(by_network_name()(ns[a]), by_network_name()(ns[b])));
        crate::text::text_le_total(ns[a].name, ns[a].name);
    }
}

// ---------------------------------------------------------------------------
// Errors and sizes
// ---------------------------------------------------------------------------

/// A refusal without a message is told by its status; one with a message by that, and
/// two that say the same are told alike.
pub proof fn errors_say_what_went_wrong(status: u16, message: Seq<char>)
    ensures
        trim(message).len() > 0 ==> friendly(
            ApiErrorView::Server { status_code: status, message },
        ) == friendly(ApiErrorView::Other(trim(message))),
        trim(message).len() == 0 ==> friendly(
            ApiErrorView::Server { status_code: status, message },
        ) == "docker returned HTTP "@ + crate::text::dec(status as nat),
{
}

proof fn field_is_found(fields: Seq<(String, Json)>, name: Seq<char>, from: int, i: int)
    requires
        0 <= from <= i < fields.len(),
        fields[i].0@ == name,
        forall|k: int| from <= k < i ==> (#[trigger] fields[k]).0@ != name,
    ensures
        field_in(fields, name, from) == Some(fields[i].1),
    decreases i - from,
{
    if from < i {
        assert(fields[from].0@ != name);
        field_is_found(fields, name, from + 1, i);
    }
}

/// A field is found under its name, the first of that name.
pub proof fn fields_go_by_their_names(fields: Seq<(String, Json)>, name: Seq<char>, i: int)
    requires
        0 <= i < fields.len(),
        fields[i].0@ == name,
        forall|k: int| 0 <= k < i ==> (#[trigger] fields[k]).0@ != name,
    ensures
        field_in(fields, name, 0) == Some(fields[i].1),
{
    field_is_found(fields, name, 0, i);
}

/// A volume's size is what the report gives under its name, from its usage data; the
/// last one counts.
pub proof fn sizes_are_the_reported_ones(
    usage: VolumesDiskUsage,
    items: Vec<Json>,
    name: String,
    data: Json,
    size: i64,
)
    requires
        usage.items == Some(items),
        items@.len() > 0,
        items@.last().field("Name"@) == Some(Json::Text(name)),
        items@.last().field("UsageData"@) == Some(data),
        data.field("Size"@) == Some(Json::Integer(size)),
    ensures
        size >= 0 ==> sizes_of(Some(usage)).dom().contains(name@) && sizes_of(Some(usage))[name@]
            == size,
{
    let n = items@.len() as int;
    assert(items@[n - 1] == items@.last());
    assert(sizes_in(items@, n) == sizes_of(Some(usage)));
}

proof fn words_stay(text: Seq<char>, run: Seq<char>)
    requires
        run.len() + text.len() < 32,
    ensures
        shortened_after(text, run) == run + text,
    decreases text.len(),
{
    if text.len() > 0 {
        let rest = text.drop_first();
        if hex_digit(text[0]) {
            words_stay(rest, run.push(text[0]));
            assert(run.push(text[0]) + rest =~= run + text);
        } else {
            words_stay(rest, Seq::empty());
            assert(run + seq![text[0]] + (Seq::<char>::empty() + rest) =~= run + text);
        }
    } else {
        assert(run + text =~= run);
    }
}

proof fn runs_are_gathered(id: Seq<char>, rest: Seq<char>, run: Seq<char>)
    requires
        forall|i: int| 0 <= i < id.len() ==> hex_digit(#[trigger] id[i]),
    ensures
        shortened_after(id + rest, run) == shortened_after(rest, run + id),
    decreases id.len(),
{
    if id.len() == 0 {
        assert(id + rest =~= rest);
        assert(run + id =~= run);
    } else {
        let tail = id.drop_first();
        assert(hex_digit(id[0]));
        assert forall|i: int| 0 <= i < tail.len() implies hex_digit(#[trigger] tail[i]) by {
            assert(hex_digit(id[i + 1]));
        }
        runs_are_gathered(tail, rest, run.push(id[0]));
        assert((id + rest).drop_first() =~= tail + rest);
        assert((id + rest)[0] == id[0]);
        assert(run.push(id[0]) + tail =~= run + id);
    }
}

/// A message keeps its words. An identifier in it, of thirty-two hex digits or more, is
/// shown by its first twelve, up to whatever follows it; a shorter run of them stays.
pub proof fn messages_keep_their_words(text: Seq<char>, id: Seq<char>, c: char, rest: Seq<char>)
    requires
        forall|i: int| 0 <= i < id.len() ==> hex_digit(#[trigger] id[i]),
        !hex_digit(c),
    ensures
        text.len() < 32 ==> shortened(text) == text,
        id.len() >= 32 ==> shortened(id + seq![c] + rest) == id.take(12) + seq![c] + shortened(
            rest,
        ),
        id.len() < 32 ==> shortened(id + seq![c] + rest) == id + seq![c] + shortened(rest),
{
    if text.len() < 32 {
        words_stay(text, Seq::empty());
        assert(Seq::<char>::empty() + text =~= text);
    }
    let tail = seq![c] + rest;
    runs_are_gathered(id, tail, Seq::empty());
    assert(id + tail =~= id + seq![c] + rest);
    assert(Seq::<char>::empty() + id =~= id);
    assert(tail[0] == c);
    assert(tail.drop_first() =~= rest);
}

/// Where a timestamp cannot be placed in a zone, its own time of day is shown.
pub proof fn raw_times_are_the_time_of_day(word: Seq<char>)
    requires
        is_ascii_chars(word),
        word.len() >= 20,
    ensures
        raw_time(word) == word.subrange(11, 19),
{
    vstd::utf8::is_ascii_chars_encode_utf8(word);
    vstd::utf8::encode_utf8_decode_utf8(word.subrange(11, 19));
    let part = word.subrange(11, 19);
    assert(is_ascii_chars(part));
    vstd::utf8::is_ascii_chars_encode_utf8(part);
    let bytes = encode_utf8(word);
    assert(bytes[11] == word[11] as u8 && bytes[19] == word[19] as u8);
    vstd::utf8::encode_utf8_valid_utf8(word);
    vstd::utf8::is_char_boundary_iff_not_is_continuation_byte(bytes, 11);
    vstd::utf8::is_char_boundary_iff_not_is_continuation_byte(bytes, 19);
    assert forall|i: int| 0 <= i < 8 implies #[trigger] bytes.subrange(11, 19)[i] == encode_utf8(
        part,
    )[i] by {
        assert(part[i] == word[i + 11]);
        assert(bytes[i + 11] == word[i + 11] as u8);
    }
    assert(bytes.subrange(11, 19) =~= encode_utf8(part));
}

/// What is left when a stream ends is told once, output before errors, and nothing else
/// is.
pub proof fn leftovers_are_told_once(stdout: Seq<u8>, stderr: Seq<u8>)
    ensures
        stdout.len() > 0 ==> leftovers(stdout, stderr)[0] == (stdout, Stream::Stdout),
        stderr.len() > 0 ==> leftovers(stdout, stderr).last() == (stderr, Stream::Stderr),
        leftovers(stdout, stderr).len() == (if stdout.len() > 0 {
            1int
        } else {
            0
        }) + (if stderr.len() > 0 {
            1int
        } else {
            0
        }),
{
}

/// The carriage return of a line that ends in two characters is no part of it.
pub proof fn returns_are_no_part_of_a_line(line: Seq<u8>)
    ensures
        without_cr(line.push(0x0D)) == line,
        line.len() > 0 && line.last() != 0x0D ==> without_cr(line) == line,
{
    assert(line.push(0x0Du8).drop_last() =~= line);
}

/// What a poll found is told, and so is the first failure; that things work again is
/// told before what was found.
pub proof fn polls_tell_what_they_found(snapshot: SnapshotView, message: Seq<char>, degraded: bool)
    ensures
        poll_events(degraded, Ok(snapshot)).last() == AppEventView::Snapshot(snapshot),
        poll_events(false, Err::<SnapshotView, Seq<char>>(message)) == seq![
            AppEventView::DaemonError(message),
        ],
        poll_events(true, Ok(snapshot)).len() == 2 && poll_events(false, Ok(snapshot)).len() == 1,
{
}

/// A shell that ended well is not spoken of; another one is, with its status, and one
/// that never opened is an error.
pub proof fn shells_are_spoken_of(name: Seq<char>, code: i64, message: Seq<char>)
    ensures
        session_toast(name, Ok(OutcomeView::Exited(0))) is None,
        code > 0 ==> session_toast(name, Ok(OutcomeView::Exited(code))) == Some(
            (ToastKind::Info, "shell in "@ + name + " exited with status "@ + dec(code as nat)),
        ),
        code < 0 ==> session_toast(name, Ok(OutcomeView::Exited(code))) == Some(
            (
                ToastKind::Info,
                "shell in "@ + name + " exited with status "@ + ("-"@ + dec((-code) as nat)),
            ),
        ),
        session_toast(name, Ok(OutcomeView::Failed(message))) matches Some((kind, text)) && kind
            == ToastKind::Error && text == "could not open a shell: "@ + message,
        session_toast(name, Err(message)) matches Some((kind, text)) && kind == ToastKind::Error
            && text == "exec failed: "@ + message,
{
}

/// A port is written with its protocol; a published one with the host's port in front,
/// and with the address that it is bound to unless it is bound to all.
pub proof fn ports_are_written_out(p: PortView, arrow: Seq<char>)
    ensures
        p.public is None ==> port_text_with(p, arrow) == dec(p.private as nat) + "/"@ + p.proto,
        p.public matches Some(host) ==> p.ip is None ==> port_text_with(p, arrow) == dec(
            host as nat,
        ) + arrow + (dec(p.private as nat) + "/"@ + p.proto),
        p.public matches Some(host) ==> p.ip matches Some(ip) ==> ip == "0.0.0.0"@ || ip == "::"@
            ==> port_text_with(p, arrow) == dec(host as nat) + arrow + (dec(p.private as nat) + "/"@
            + p.proto),
        p.public matches Some(host) ==> p.ip matches Some(ip) ==> ip != "0.0.0.0"@ && ip != "::"@
            ==> port_text_with(p, arrow) == ip + ":"@ + (dec(host as nat) + arrow + (dec(
            p.private as nat,
        ) + "/"@ + p.proto)),
{
}

/// An image goes by its repository and tag, and by its id where it has none.
pub proof fn images_go_by_their_tag(i: ImageView)
    ensures
        !i.dangling ==> reference_text(i) == i.repository + ":"@ + i.tag,
        i.dangling ==> reference_text(i) == crate::util::format::short(i.id),
{
}

/// The networks that Docker comes with are these three.
pub proof fn three_networks_are_built_in(name: Seq<char>)
    ensures
        predefined(name) <==> name == seq!['b', 'r', 'i', 'd', 'g', 'e'] || name == seq![
            'h',
            'o',
            's',
            't',
        ] || name == seq!['n', 'o', 'n', 'e'],
{
    reveal_strlit("bridge");
    reveal_strlit("host");
    reveal_strlit("none");
    assert("bridge"@ =~= seq!['b', 'r', 'i', 'd', 'g', 'e']);
    assert("host"@ =~= seq!['h', 'o', 's', 't']);
    assert("none"@ =~= seq!['n', 'o', 'n', 'e']);
}

// ---------------------------------------------------------------------------
// Streams of readings
// ---------------------------------------------------------------------------

/// Whether a container by that id is up.
pub open spec fn is_up(containers: Seq<ContainerView>, id: Seq<char>) -> bool {
    exists|i: int|
        0 <= i < containers.len() && (#[trigger] containers[i]).id == id && (containers[i].state
            == State::Running || containers[i].state == State::Restarting)
}

proof fn up_is_wanted(containers: Seq<ContainerView>, id: Seq<char>)
    ensures
        is_wanted(containers, id) <==> is_up(containers, id),
{
    if is_wanted(containers, id) {
        let i = choose|i: int|
            0 <= i < containers.len() && (#[trigger] containers[i]).id == id
                && containers[i].state.running();
        assert(containers[i].id == id);
    }
    if is_up(containers, id) {
        let i = choose|i: int|
            0 <= i < containers.len() && (#[trigger] containers[i]).id == id
                && (containers[i].state == State::Running || containers[i].state
                == State::Restarting);
        assert(containers[i].id == id);
    }
}

/// A stream is closed exactly when its container is no longer up or it has come to an end
/// by itself.
pub proof fn streams_close_with_their_container(
    tasks: Seq<TaskView>,
    containers: Seq<ContainerView>,
    k: int,
)
    requires
        0 <= k < tasks.len(),
    ensures
        !is_up(containers, tasks[k].id) || tasks[k].finished ==> to_abort(
            tasks,
            containers,
        ).contains(tasks[k].id),
        forall|i: int|
            0 <= i < to_abort(tasks, containers).len() ==> exists|j: int|
                0 <= j < tasks.len() && (#[trigger] tasks[j]).id == #[trigger] to_abort(
                    tasks,
                    containers,
                )[i] && (!is_up(containers, tasks[j].id) || tasks[j].finished),
    decreases tasks.len(),
{
    let rest = tasks.drop_last();
    let low = to_abort(rest, containers);
    let all = to_abort(tasks, containers);
    up_is_wanted(containers, tasks.last().id);
    if rest.len() > 0 {
        let m: int = if k < rest.len() {
            k
        } else {
            0
        };
        streams_close_with_their_container(rest, containers, m);
        if k < rest.len() {
            assert(rest[k] == tasks[k]);
            if low.contains(tasks[k].id) {
                let i = choose|i: int| 0 <= i < low.len() && low[i] == tasks[k].id;
                assert(all[i] == tasks[k].id);
            }
        }
    }
    if k == rest.len() && !stays(containers, tasks[k]) {
        assert(all[low.len() as int] == tasks[k].id);
    }
    assert forall|i: int| 0 <= i < all.len() implies exists|j: int|
        0 <= j < tasks.len() && (#[trigger] tasks[j]).id == #[trigger] all[i] && (!is_up(
            containers,
            tasks[j].id,
        ) || tasks[j].finished) by {
        if i < low.len() {
            assert(all[i] == low[i]);
            let j = choose|j: int|
                0 <= j < rest.len() && (#[trigger] rest[j]).id == low[i] && (!is_up(
                    containers,
                    rest[j].id,
                ) || rest[j].finished);
            assert(tasks[j] == rest[j]);
        } else {
            assert(tasks[tasks.len() - 1].id == all[i]);
        }
    }
}

/// A stream is opened for a container exactly when it is up and has none that goes on.
pub proof fn streams_open_with_their_container(
    tasks: Seq<TaskView>,
    containers: Seq<ContainerView>,
    id: Seq<char>,
)
    ensures
        to_start(tasks, containers, containers.len() as int).contains(id) <==> is_up(
            containers,
            id,
        ) && forall|k: int|
            0 <= k < tasks.len() && (#[trigger] tasks[k]).id == id ==> tasks[k].finished,
{
    up_is_wanted(containers, id);
    crate::docker::stats::streams_follow_the_containers(tasks, containers, id);
    if is_up(containers, id) && !is_streaming(tasks, containers, id) {
        assert forall|k: int| 0 <= k < tasks.len() && (#[trigger] tasks[k]).id
            == id implies tasks[k].finished by {
            assert(!stays(containers, tasks[k]));
        }
    }
}

} // verus!
