//! Live per-container resource usage.
//!
//! Docker's stats endpoint is one long-lived stream per container, so one task
//! is kept per running container and reconciled against the latest container
//! list: new containers get a stream, departed ones get aborted.

use vstd::prelude::*;

use crate::docker::model::{ContainerRow, ContainerView};
use crate::text::{lower_all, owned, put, same, same_ignoring_case};

verus! {

broadcast use vstd::string::group_string_axioms;

/// A percentage that is not negative, held as the bits of a double-precision
/// number. The bits of such numbers are in the same order as the numbers.
#[derive(Debug, Clone, Copy, PartialEq, Eq, Structural)]
pub struct Percent {
    pub bits: u64,
}

/// The bits of 80.0.
pub const EIGHTY: u64 = 0x4054_0000_0000_0000;

/// The bits of 50.0.
pub const FIFTY: u64 = 0x4049_0000_0000_0000;

/// The bits of 1.0.
pub const ONE: u64 = 0x3FF0_0000_0000_0000;

/// One reading, already reduced to what the UI shows.
#[derive(Debug, Clone)]
pub struct StatSample {
    pub cpu_percent: Percent,
    /// `cpu_percent` to one decimal place.
    pub cpu_text: String,
    pub mem_bytes: u64,
    pub mem_limit: u64,
    /// `mem_bytes` as a share of `mem_limit`; meaningless without a limit.
    pub mem_share: Percent,
    pub net_rx: u64,
    pub net_tx: u64,
    pub block_read: u64,
    pub block_write: u64,
    pub pids: u64,
}

/// The mathematical value of a [`StatSample`].
#[verifier::ext_equal]
pub struct StatView {
    pub cpu_percent: Percent,
    pub cpu_text: Seq<char>,
    pub mem_bytes: u64,
    pub mem_limit: u64,
    pub mem_share: Percent,
    pub net_rx: u64,
    pub net_tx: u64,
    pub block_read: u64,
    pub block_write: u64,
    pub pids: u64,
}

impl DeepView for StatSample {
    type V = StatView;

    open spec fn deep_view(&self) -> StatView {
        StatView {
            cpu_percent: self.cpu_percent,
            cpu_text: self.cpu_text@,
            mem_bytes: self.mem_bytes,
            mem_limit: self.mem_limit,
            mem_share: self.mem_share,
            net_rx: self.net_rx,
            net_tx: self.net_tx,
            block_read: self.block_read,
            block_write: self.block_write,
            pids: self.pids,
        }
    }
}

impl StatView {
    /// Memory in use against the limit, where there is a limit.
    pub open spec fn mem_percent(self) -> Option<Percent> {
        if self.mem_limit == 0 {
            None
        } else {
            Some(self.mem_share)
        }
    }
}

impl StatSample {
    /// Memory in use against the limit, where there is a limit.
    pub fn mem_percent(&self) -> (out: Option<Percent>)
        ensures
            out == self.deep_view().mem_percent(),
    {
        if self.mem_limit == 0 {
            None
        } else {
            Some(self.mem_share)
        }
    }
}

// ---------------------------------------------------------------------------
// Reducing a frame
// ---------------------------------------------------------------------------

/// The CPU section of a stats frame.
#[derive(Debug, Clone)]
pub struct CpuStats {
    pub total_usage: Option<u64>,
    /// How many cores report their own usage, where any do.
    pub percpu_cores: Option<usize>,
    pub system_cpu_usage: Option<u64>,
    pub online_cpus: Option<u32>,
}

/// The memory section of a stats frame.
#[derive(Debug, Clone)]
pub struct MemoryStats {
    pub usage: Option<u64>,
    pub limit: Option<u64>,
    pub stats: Vec<(String, u64)>,
}

/// The traffic of one network interface.
#[derive(Debug, Clone, Copy)]
pub struct NetworkStats {
    pub rx_bytes: Option<u64>,
    pub tx_bytes: Option<u64>,
}

/// One block I/O counter.
#[derive(Debug, Clone)]
pub struct BlkioEntry {
    pub op: Option<String>,
    pub value: Option<u64>,
}

/// A raw stats frame, everything in it optional.
#[derive(Debug, Clone)]
pub struct StatsFrame {
    pub cpu_stats: Option<CpuStats>,
    pub precpu_stats: Option<CpuStats>,
    pub memory_stats: Option<MemoryStats>,
    pub networks: Vec<NetworkStats>,
    pub blkio: Vec<BlkioEntry>,
    pub pids: Option<u64>,
}

/// What a frame comes to, before the percentages are worked out. The CPU
/// figure is `cpu_delta / system_delta * cores * 100`.
#[derive(Debug, Clone, Copy, PartialEq, Eq, Structural)]
pub struct Reading {
    pub cpu_delta: u64,
    pub system_delta: u64,
    pub cores: usize,
    pub mem_bytes: u64,
    pub mem_limit: u64,
    pub net_rx: u64,
    pub net_tx: u64,
    pub block_read: u64,
    pub block_write: u64,
    pub pids: u64,
}

/// The number, or zero where there is none.
pub open spec fn or_zero(n: Option<u64>) -> u64 {
    match n {
        Some(v) => v,
        None => 0,
    }
}

fn unwrap_number(n: Option<u64>) -> (out: u64)
    ensures
        out == or_zero(n),
{
    match n {
        Some(v) => v,
        None => 0,
    }
}

/// `n` as far as a `u64` can count.
pub open spec fn capped(n: int) -> u64 {
    if n > u64::MAX {
        u64::MAX
    } else {
        n as u64
    }
}

fn capped_sum(a: u64, b: u64) -> (out: u64)
    ensures
        out == capped(a + b),
{
    if a > u64::MAX - b {
        u64::MAX
    } else {
        a + b
    }
}

/// Whether a frame has a baseline to measure CPU time against.
pub open spec fn has_baseline(cpu: CpuStats, pre: CpuStats) -> bool {
    &&& or_zero(pre.system_cpu_usage) != 0
    &&& or_zero(cpu.system_cpu_usage) > or_zero(pre.system_cpu_usage)
    &&& or_zero(cpu.total_usage) >= or_zero(pre.total_usage)
}

/// How many cores a CPU section is about: at least one.
pub open spec fn cores_of(cpu: CpuStats) -> usize {
    let said = match cpu.online_cpus {
        Some(n) => Some(n as usize),
        None => cpu.percpu_cores,
    };
    match said {
        Some(n) => if n > 0 {
            n
        } else {
            1
        },
        None => 1,
    }
}

/// The first counter of that name.
pub open spec fn counter(stats: Seq<(String, u64)>, name: Seq<char>) -> Option<u64>
    decreases stats.len(),
{
    if stats.len() == 0 {
        None
    } else if stats[0].0@ == name {
        Some(stats[0].1)
    } else {
        counter(stats.drop_first(), name)
    }
}

fn find_counter(stats: &Vec<(String, u64)>, name: &str) -> (out: Option<u64>)
    ensures
        out == counter(stats@, name@),
{
    let mut i: usize = 0;
    assert(stats@.skip(0) =~= stats@);
    while i < stats.len()
        invariant
            i <= stats.len(),
            counter(stats@, name@) == counter(stats@.skip(i as int), name@),
        decreases stats.len() - i,
    {
        assert(stats@.skip(i as int)[0] == stats@[i as int]);
        assert(stats@.skip(i as int).drop_first() =~= stats@.skip(i + 1));
        if same(&stats[i].0, name) {
            return Some(stats[i].1);
        }
        i += 1;
    }
    None
}

/// Page cache charged to a container: cgroup v2 calls it `inactive_file`, v1
/// `total_inactive_file`.
pub open spec fn page_cache(stats: Seq<(String, u64)>) -> u64 {
    match counter(stats, "inactive_file"@) {
        Some(n) => n,
        None => or_zero(counter(stats, "total_inactive_file"@)),
    }
}

/// Memory in use and the limit on it. Page cache is charged to the container
/// but isn't really "in use", so it is left out.
pub open spec fn memory_of(m: Option<MemoryStats>) -> (u64, u64) {
    match m {
        None => (0, 0),
        Some(m) => {
            let usage = or_zero(m.usage);
            let cache = page_cache(m.stats@);
            (
                if usage >= cache {
                    (usage - cache) as u64
                } else {
                    0
                },
                or_zero(m.limit),
            )
        },
    }
}

/// Bytes received on the first `n` interfaces.
pub open spec fn received(nets: Seq<NetworkStats>, n: int) -> u64
    decreases n,
{
    if n <= 0 {
        0
    } else {
        capped(received(nets, n - 1) + or_zero(nets[n - 1].rx_bytes))
    }
}

/// Bytes sent on the first `n` interfaces.
pub open spec fn sent(nets: Seq<NetworkStats>, n: int) -> u64
    decreases n,
{
    if n <= 0 {
        0
    } else {
        capped(sent(nets, n - 1) + or_zero(nets[n - 1].tx_bytes))
    }
}

/// What the first `n` counters of the operation `op` come to, case aside.
pub open spec fn moved(entries: Seq<BlkioEntry>, op: Seq<char>, n: int) -> u64
    decreases n,
{
    if n <= 0 {
        0
    } else {
        let low = moved(entries, op, n - 1);
        match entries[n - 1].op {
            Some(name) => if lower_all(name@) == op {
                capped(low + or_zero(entries[n - 1].value))
            } else {
                low
            },
            None => low,
        }
    }
}

/// What a frame comes to. The very first frame of a stream has no baseline, so
/// any CPU number derived from it is meaningless; it comes to nothing.
pub open spec fn reading_of(raw: StatsFrame) -> Option<Reading> {
    match (raw.cpu_stats, raw.precpu_stats) {
        (Some(cpu), Some(pre)) => if !has_baseline(cpu, pre) {
            None
        } else {
            Some(
                Reading {
                    cpu_delta: (or_zero(cpu.total_usage) - or_zero(pre.total_usage)) as u64,
                    system_delta: (or_zero(cpu.system_cpu_usage) - or_zero(
                        pre.system_cpu_usage,
                    )) as u64,
                    cores: cores_of(cpu),
                    mem_bytes: memory_of(raw.memory_stats).0,
                    mem_limit: memory_of(raw.memory_stats).1,
                    net_rx: received(raw.networks@, raw.networks@.len() as int),
                    net_tx: sent(raw.networks@, raw.networks@.len() as int),
                    block_read: moved(raw.blkio@, "read"@, raw.blkio@.len() as int),
                    block_write: moved(raw.blkio@, "write"@, raw.blkio@.len() as int),
                    pids: or_zero(raw.pids),
                },
            )
        },
        _ => None,
    }
}

fn count_cores(cpu: &CpuStats) -> (out: usize)
    ensures
        out == cores_of(*cpu),
{
    let said: Option<usize> = match cpu.online_cpus {
        Some(n) => Some(n as usize),
        None => cpu.percpu_cores,
    };
    match said {
        Some(n) => if n > 0 {
            n
        } else {
            1
        },
        None => 1,
    }
}

fn memory(m: &Option<MemoryStats>) -> (out: (u64, u64))
    ensures
        out == memory_of(*m),
{
    match m {
        None => (0, 0),
        Some(m) => {
            let usage: u64 = unwrap_number(m.usage);
            let cache: u64 = match find_counter(&m.stats, "inactive_file") {
                Some(n) => n,
                None => unwrap_number(find_counter(&m.stats, "total_inactive_file")),
            };
            let used: u64 = if usage >= cache {
                usage - cache
            } else {
                0
            };
            (used, unwrap_number(m.limit))
        },
    }
}

fn traffic(nets: &Vec<NetworkStats>) -> (out: (u64, u64))
    ensures
        out.0 == received(nets@, nets@.len() as int),
        out.1 == sent(nets@, nets@.len() as int),
{
    let mut rx: u64 = 0;
    let mut tx: u64 = 0;
    let mut i: usize = 0;
    while i < nets.len()
        invariant
            i <= nets.len(),
            rx == received(nets@, i as int),
            tx == sent(nets@, i as int),
        decreases nets.len() - i,
    {
        rx = capped_sum(rx, unwrap_number(nets[i].rx_bytes));
        tx = capped_sum(tx, unwrap_number(nets[i].tx_bytes));
        i += 1;
    }
    (rx, tx)
}

fn disk(entries: &Vec<BlkioEntry>) -> (out: (u64, u64))
    ensures
        out.0 == moved(entries@, "read"@, entries@.len() as int),
        out.1 == moved(entries@, "write"@, entries@.len() as int),
{
    let mut read: u64 = 0;
    let mut write: u64 = 0;
    let mut i: usize = 0;
    proof {
        reveal_strlit("read");
        reveal_strlit("write");
        assert(lower_all("read"@) =~= "read"@);
        assert(lower_all("write"@) =~= "write"@);
        assert("read"@.len() != "write"@.len());
    }
    while i < entries.len()
        invariant
            i <= entries.len(),
            lower_all("read"@) == "read"@,
            lower_all("write"@) == "write"@,
            "read"@.len() != "write"@.len(),
            read == moved(entries@, "read"@, i as int),
            write == moved(entries@, "write"@, i as int),
        decreases entries.len() - i,
    {
        let v: u64 = unwrap_number(entries[i].value);
        if let Some(op) = &entries[i].op {
            if same_ignoring_case(op, "read") {
                read = capped_sum(read, v);
            } else if same_ignoring_case(op, "write") {
                write = capped_sum(write, v);
            }
        }
        i += 1;
    }
    (read, write)
}

/// Turn a raw stats frame into a [`Reading`], mirroring how the Docker CLI
/// computes the same numbers. `None` when there is no baseline yet: that is
/// better than reporting a false spike.
pub fn reduce(raw: &StatsFrame) -> (out: Option<Reading>)
    ensures
        out == reading_of(*raw),
{
    let (cpu, pre) = match (&raw.cpu_stats, &raw.precpu_stats) {
        (Some(cpu), Some(pre)) => (cpu, pre),
        _ => {
            return None;
        },
    };
    let total: u64 = unwrap_number(cpu.total_usage);
    let pre_total: u64 = unwrap_number(pre.total_usage);
    let system: u64 = unwrap_number(cpu.system_cpu_usage);
    let pre_system: u64 = unwrap_number(pre.system_cpu_usage);
    // No baseline yet — skip rather than reporting a false spike.
    if pre_system == 0 || system <= pre_system || total < pre_total {
        return None;
    }
    let (mem_bytes, mem_limit) = memory(&raw.memory_stats);
    let (net_rx, net_tx) = traffic(&raw.networks);
    let (block_read, block_write) = disk(&raw.blkio);
    Some(
        Reading {
            cpu_delta: total - pre_total,
            system_delta: system - pre_system,
            cores: count_cores(cpu),
            mem_bytes,
            mem_limit,
            net_rx,
            net_tx,
            block_read,
            block_write,
            pids: unwrap_number(raw.pids),
        },
    )
}

/// Every reading can be divided by: the baseline is a positive stretch of time
/// on at least one core, and memory in use never exceeds what was charged.
pub proof fn readings_are_sound(raw: StatsFrame)
    ensures
        reading_of(raw) matches Some(r) ==> r.system_delta > 0 && r.cores > 0,
        match (reading_of(raw), raw.memory_stats) {
            (Some(r), Some(m)) => r.mem_bytes <= or_zero(m.usage),
            _ => true,
        },
{
}

// ---------------------------------------------------------------------------
// Keeping the streams current
// ---------------------------------------------------------------------------

/// A stream that is open, and whether its task has come to an end by itself.
#[derive(Debug, Clone)]
pub struct StreamTask {
    pub id: String,
    pub finished: bool,
}

/// The mathematical value of a [`StreamTask`].
#[verifier::ext_equal]
pub struct TaskView {
    pub id: Seq<char>,
    pub finished: bool,
}

impl DeepView for StreamTask {
    type V = TaskView;

    open spec fn deep_view(&self) -> TaskView {
        TaskView { id: self.id@, finished: self.finished }
    }
}

/// What to do to the open streams.
#[derive(Debug, Clone)]
pub struct StreamPlan {
    pub abort: Vec<String>,
    pub start: Vec<String>,
}

/// Whether a container by that id is running.
pub open spec fn is_wanted(containers: Seq<ContainerView>, id: Seq<char>) -> bool {
    exists|i: int|
        0 <= i < containers.len() && (#[trigger] containers[i]).id == id
            && containers[i].state.running()
}

/// Whether a stream goes on: its container is running and it has not ended.
pub open spec fn stays(containers: Seq<ContainerView>, task: TaskView) -> bool {
    is_wanted(containers, task.id) && !task.finished
}

/// The ids of the streams to abort.
pub open spec fn to_abort(tasks: Seq<TaskView>, containers: Seq<ContainerView>) -> Seq<Seq<char>>
    decreases tasks.len(),
{
    if tasks.len() == 0 {
        Seq::empty()
    } else {
        let low = to_abort(tasks.drop_last(), containers);
        if stays(containers, tasks.last()) {
            low
        } else {
            low.push(tasks.last().id)
        }
    }
}

/// Whether `id` has a stream that goes on.
pub open spec fn is_streaming(
    tasks: Seq<TaskView>,
    containers: Seq<ContainerView>,
    id: Seq<char>,
) -> bool {
    exists|i: int|
        0 <= i < tasks.len() && (#[trigger] tasks[i]).id == id && stays(containers, tasks[i])
}

/// The ids, among the first `n` containers, to start a stream for: running,
/// and without one that goes on.
pub open spec fn to_start(tasks: Seq<TaskView>, containers: Seq<ContainerView>, n: int) -> Seq<
    Seq<char>,
>
    decreases n,
{
    if n <= 0 {
        Seq::empty()
    } else {
        let low = to_start(tasks, containers, n - 1);
        let c = containers[n - 1];
        if c.state.running() && !is_streaming(tasks, containers, c.id) && !low.contains(c.id) {
            low.push(c.id)
        } else {
            low
        }
    }
}

fn wanted(containers: &Vec<ContainerRow>, id: &str) -> (out: bool)
    ensures
        out == is_wanted(containers.deep_view(), id@),
{
    let ghost all = containers.deep_view();
    let mut i: usize = 0;
    while i < containers.len()
        invariant
            i <= containers.len(),
            all == containers.deep_view(),
            forall|k: int|
                0 <= k < i ==> (#[trigger] all[k]).id != id@ || !all[k].state.running(),
        decreases containers.len() - i,
    {
        assert(all[i as int] == containers@[i as int].deep_view());
        if containers[i].state.is_running() && same(&containers[i].id, id) {
            return true;
        }
        i += 1;
    }
    false
}

fn listed(ids: &Vec<String>, id: &str) -> (out: bool)
    ensures
        out == ids.deep_view().contains(id@),
{
    let mut i: usize = 0;
    while i < ids.len()
        invariant
            i <= ids.len(),
            forall|k: int| 0 <= k < i ==> #[trigger] ids.deep_view()[k] != id@,
        decreases ids.len() - i,
    {
        assert(ids.deep_view()[i as int] == ids@[i as int]@);
        if same(&ids[i], id) {
            return true;
        }
        i += 1;
    }
    false
}

fn streaming(tasks: &Vec<StreamTask>, containers: &Vec<ContainerRow>, id: &str) -> (out: bool)
    ensures
        out == is_streaming(tasks.deep_view(), containers.deep_view(), id@),
{
    let ghost all = tasks.deep_view();
    let mut i: usize = 0;
    while i < tasks.len()
        invariant
            i <= tasks.len(),
            all == tasks.deep_view(),
            forall|k: int|
                0 <= k < i ==> (#[trigger] all[k]).id != id@ || !stays(
                    containers.deep_view(),
                    all[k],
                ),
        decreases tasks.len() - i,
    {
        assert(all[i as int] == tasks@[i as int].deep_view());
        if same(&tasks[i].id, id) && !tasks[i].finished && wanted(containers, id) {
            return true;
        }
        i += 1;
    }
    false
}

/// Reconcile the open streams with the current container list: streams for
/// containers that stopped or disappeared are dropped, and anything new gets
/// one. Cheap to call on every refresh.
pub fn sync(tasks: &Vec<StreamTask>, containers: &Vec<ContainerRow>) -> (out: StreamPlan)
    ensures
        out.abort.deep_view() == to_abort(tasks.deep_view(), containers.deep_view()),
        out.start.deep_view() == to_start(
            tasks.deep_view(),
            containers.deep_view(),
            containers@.len() as int,
        ),
{
    let ghost ts = tasks.deep_view();
    let ghost cs = containers.deep_view();
    let mut abort: Vec<String> = Vec::new();
    let mut i: usize = 0;
    assert(abort.deep_view() =~= to_abort(ts.take(0), cs));
    while i < tasks.len()
        invariant
            i <= tasks.len(),
            ts == tasks.deep_view(),
            cs == containers.deep_view(),
            abort.deep_view() == to_abort(ts.take(i as int), cs),
        decreases tasks.len() - i,
    {
        assert(ts.take(i + 1).drop_last() =~= ts.take(i as int));
        assert(ts.take(i + 1).last() == tasks@[i as int].deep_view());
        if tasks[i].finished || !wanted(containers, &tasks[i].id) {
            put(&mut abort, owned(&tasks[i].id));
        }
        i += 1;
    }
    assert(ts.take(ts.len() as int) =~= ts);
    let mut start: Vec<String> = Vec::new();
    let mut j: usize = 0;
    assert(start.deep_view() =~= to_start(ts, cs, 0));
    while j < containers.len()
        invariant
            j <= containers.len(),
            ts == tasks.deep_view(),
            cs == containers.deep_view(),
            start.deep_view() == to_start(ts, cs, j as int),
        decreases containers.len() - j,
    {
        assert(cs[j as int] == containers@[j as int].deep_view());
        let c = &containers[j];
        if c.state.is_running() && !streaming(tasks, containers, &c.id) && !listed(&start, &c.id) {
            put(&mut start, owned(&c.id));
        }
        j += 1;
    }
    StreamPlan { abort, start }
}

proof fn started_ids(tasks: Seq<TaskView>, containers: Seq<ContainerView>, n: int, id: Seq<char>)
    requires
        0 <= n <= containers.len(),
    ensures
        to_start(tasks, containers, n).contains(id) <==> !is_streaming(tasks, containers, id) && (
        exists|i: int|
            0 <= i < n && (#[trigger] containers[i]).id == id && containers[i].state.running()),
    decreases n,
{
    if n > 0 {
        started_ids(tasks, containers, n - 1, id);
        let low = to_start(tasks, containers, n - 1);
        let all = to_start(tasks, containers, n);
        let c = containers[n - 1];
        if all.contains(id) {
            let i = choose|i: int| 0 <= i < all.len() && all[i] == id;
            if i < low.len() {
                assert(low[i] == id);
                let k = choose|k: int|
                    0 <= k < n - 1 && (#[trigger] containers[k]).id == id
                        && containers[k].state.running();
                assert(containers[k].id == id);
            } else {
                assert(containers[n - 1].id == id);
            }
        }
        if low.contains(id) {
            let i = choose|i: int| 0 <= i < low.len() && low[i] == id;
            assert(all[i] == id);
        }
        if !is_streaming(tasks, containers, id) && c.id == id && c.state.running() {
            if !low.contains(id) {
                assert(all[all.len() - 1] == id);
            }
        }
    }
}

/// Once a plan is carried out there is a stream for every running container
/// and for nothing else: each running container either keeps a stream that
/// goes on or has one started, never both, and whatever is started is running.
pub proof fn streams_follow_the_containers(
    tasks: Seq<TaskView>,
    containers: Seq<ContainerView>,
    id: Seq<char>,
)
    ensures
        is_wanted(containers, id) <==> is_streaming(tasks, containers, id) || to_start(
            tasks,
            containers,
            containers.len() as int,
        ).contains(id),
        !(is_streaming(tasks, containers, id) && to_start(
            tasks,
            containers,
            containers.len() as int,
        ).contains(id)),
        to_start(tasks, containers, containers.len() as int).no_duplicates(),
{
    started_ids(tasks, containers, containers.len() as int, id);
    started_once(tasks, containers, containers.len() as int);
}

proof fn started_once(tasks: Seq<TaskView>, containers: Seq<ContainerView>, n: int)
    ensures
        to_start(tasks, containers, n).no_duplicates(),
    decreases n,
{
    if n > 0 {
        started_once(tasks, containers, n - 1);
    }
}

} // verus!
