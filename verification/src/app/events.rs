//! What the background tasks have to say.

use vstd::prelude::*;

use crate::app::state::{
    part, readings, verbs, wf_carries_over, App, AppState, Effect, EffectView, LogState, LogView,
};
use crate::app::{cycle_of, Sort, Tab, ToastKind, LOG_CAPACITY};
use crate::docker::actions::{description_of, target_of, Job, JobView};
use crate::docker::logs::{LogLine, LogLineView};
use crate::docker::model::{
    annotate_usage, used_networks, used_volumes, ContainerRow, ContainerView, DaemonInfo,
    ImageRow, NetworkRow, VolumeRow,
};
use crate::docker::refresh::{Snapshot, SnapshotView};
use crate::docker::stats::{StatSample, StatView};
use crate::event::{AppEvent, AppEventView};
use crate::names::NameSet;
use crate::text::{owned, put, same};

verus! {

broadcast use vstd::string::group_string_axioms;

/// The ids of the first `n` containers.
pub open spec fn live_ids(rows: Seq<ContainerView>, n: int) -> Set<Seq<char>>
    decreases n,
{
    if n <= 0 {
        Set::empty()
    } else {
        live_ids(rows, n - 1).insert(rows[n - 1].id)
    }
}

fn ids_of(rows: &Vec<ContainerRow>) -> (out: NameSet)
    ensures
        out@ == live_ids(rows.deep_view(), rows@.len() as int),
{
    let mut out = NameSet::new();
    let mut i: usize = 0;
    while i < rows.len()
        invariant
            i <= rows.len(),
            out@ == live_ids(rows.deep_view(), i as int),
        decreases rows.len() - i,
    {
        assert(rows.deep_view()[i as int].id == rows@[i as int].id@);
        out.insert(&rows[i].id);
        i += 1;
    }
    out
}

/// The texts other than one.
pub open spec fn other_than(text: Seq<char>) -> spec_fn(Seq<char>) -> bool {
    |d: Seq<char>| d != text
}

impl LogView {
    /// One more line. The oldest makes room once the buffer is full, and a pane
    /// that is scrolled back moves one line further from the newest, so that it
    /// stays on the same text for as long as that text is in the buffer.
    pub open spec fn with_line(self, line: LogLineView) -> LogView {
        let lines = if self.lines.len() >= LOG_CAPACITY {
            self.lines.drop_first().push(line)
        } else {
            self.lines.push(line)
        };
        LogView {
            loading: false,
            lines,
            scroll: if self.follow || self.scroll == 0 {
                self.scroll
            } else if self.scroll < lines.len() {
                self.scroll + 1
            } else {
                lines.len()
            },
            ..self
        }
    }
}

impl AppState {
    /// Every list as a snapshot has it, each volume and network with its users.
    pub open spec fn with_snapshot(self, snap: SnapshotView) -> AppState {
        AppState {
            containers: snap.containers,
            images: snap.images,
            volumes: used_volumes(snap.containers, snap.volumes),
            networks: used_networks(snap.containers, snap.networks),
            // Readings of containers that no longer exist are dropped, or they
            // would grow without bound across a long session.
            stats: self.stats.restrict(
                live_ids(snap.containers, snap.containers.len() as int),
            ),
            ..self
        }
    }

    /// A snapshot taken in.
    #[verifier::opaque]
    pub open spec fn snapshot_taken(self, snap: SnapshotView, now: u64) -> AppState {
        self.with_snapshot(snap).effecting(EffectView::SyncStats).all_rebuilt().logs_synced(now)
    }

    /// A reading noted. The rows are only sorted again when their order depends
    /// on it.
    #[verifier::opaque]
    pub open spec fn stat_taken(self, id: Seq<char>, sample: StatView) -> AppState {
        let noted = AppState { stats: self.stats.insert(id, sample), ..self };
        if self.sort_of(self.tab) == Sort::Cpu || self.sort_of(self.tab) == Sort::Mem {
            noted.rebuilt(self.tab)
        } else {
            noted
        }
    }

    /// A line of the log pane's own stream added; one of a stream we've already
    /// moved on from is not.
    #[verifier::opaque]
    pub open spec fn line_taken(self, generation: u64, line: LogLineView) -> AppState {
        if generation == self.logs.generation {
            AppState { logs: self.logs.with_line(line), ..self }
        } else {
            self
        }
    }

    /// The log pane's own stream open, or at its end.
    #[verifier::opaque]
    pub open spec fn loading_over(self, generation: u64) -> AppState {
        if generation == self.logs.generation {
            AppState { logs: LogView { loading: false, ..self.logs }, ..self }
        } else {
            self
        }
    }

    /// The log pane's own stream failed.
    #[verifier::opaque]
    pub open spec fn logs_failed(self, generation: u64, message: Seq<char>) -> AppState {
        if generation == self.logs.generation {
            AppState {
                logs: LogView { loading: false, error: Some(message), ..self.logs },
                ..self
            }
        } else {
            self
        }
    }

    /// A job no longer under way.
    pub open spec fn job_over(self, job: JobView) -> AppState {
        AppState {
            pending: match target_of(job) {
                Some(id) => self.pending.remove(id),
                None => self.pending,
            },
            global_pending: self.global_pending.filter(other_than(description_of(job))),
            ..self
        }
    }

    /// A job finished, and the lists on their way to be read again.
    #[verifier::opaque]
    pub open spec fn job_done(
        self,
        job: JobView,
        result: Result<Seq<char>, Seq<char>>,
        now: u64,
    ) -> AppState {
        let over = self.job_over(job);
        let told = match result {
            Ok(msg) => over.toasted(ToastKind::Success, msg, now),
            Err(msg) => over.toasted(ToastKind::Error, msg, now),
        };
        told.effecting(EffectView::Refresh)
    }

    /// The daemon out of reach.
    #[verifier::opaque]
    pub open spec fn daemon_lost(self, msg: Seq<char>) -> AppState {
        (AppState { daemon_error: Some(msg), ..self }).effecting(EffectView::ClearStats)
    }

    /// The daemon within reach.
    #[verifier::opaque]
    pub open spec fn daemon_found(self, now: u64) -> AppState {
        if self.daemon_error is Some {
            (AppState { daemon_error: None, ..self }).toasted(
                ToastKind::Success,
                "reconnected to the docker daemon"@,
                now,
            )
        } else {
            self
        }
    }

    /// What an event does.
    #[verifier::opaque]
    pub open spec fn told(self, ev: AppEventView, now: u64) -> AppState {
        let woken = self.woken();
        match ev {
            AppEventView::Snapshot(snap) => woken.snapshot_taken(snap, now),
            AppEventView::Stat { id, sample } => woken.stat_taken(id, sample),
            AppEventView::LogLine { generation, line } => woken.line_taken(generation, line),
            AppEventView::LogAttached { generation } => woken.loading_over(generation),
            AppEventView::LogEnd { generation } => woken.loading_over(generation),
            AppEventView::LogError { generation, message } => woken.logs_failed(
                generation,
                message,
            ),
            AppEventView::JobDone { job, result } => woken.job_done(job, result, now),
            AppEventView::Daemon(info) => AppState { daemon: info, ..woken },
            AppEventView::DaemonError(msg) => woken.daemon_lost(msg),
            AppEventView::DaemonOk => woken.daemon_found(now),
        }
    }
}

impl LogState {
    /// Add a line.
    pub fn push_line(&mut self, line: LogLine)
        requires
            old(self).deep_view().sound(),
        ensures
            final(self).deep_view() == old(self).deep_view().with_line(line.deep_view()),
            final(self).deep_view().sound(),
    {
        let ghost before = self.deep_view();
        self.loading = false;
        if self.lines.len() >= LOG_CAPACITY {
            let _ = self.lines.pop_front();
            assert(self.lines.deep_view() =~= before.lines.drop_first());
        }
        let ghost kept = self.lines.deep_view();
        self.lines.push_back(line);
        assert(self.lines.deep_view() =~= kept.push(line.deep_view()));
        // The viewport stays anchored to the same text.
        if !self.follow && self.scroll > 0 && self.scroll < self.lines.len() {
            self.scroll += 1;
        }
    }
}

proof fn lists_may_change(v: AppState, w: AppState)
    requires
        v.wf(),
        w.sort_index == v.sort_index,
        w.logs == v.logs,
        w.hits == v.hits,
    ensures
        w.sound(),
{
    reveal(AppState::wf);
    assert forall|tab: Tab| (#[trigger] w.sort_index.at(tab)) < cycle_of(tab).len() by {
        assert(v.sort_index.at(tab) < cycle_of(tab).len());
    }
}

impl App {
    fn put_lists(
        &mut self,
        containers: Vec<ContainerRow>,
        images: Vec<ImageRow>,
        volumes: Vec<VolumeRow>,
        networks: Vec<NetworkRow>,
    )
        ensures
            final(self).state() == (AppState {
                containers: containers.deep_view(),
                images: images.deep_view(),
                volumes: volumes.deep_view(),
                networks: networks.deep_view(),
                ..old(self).state()
            }),
    {
        reveal(part);
        self.containers = containers;
        self.images = images;
        self.volumes = volumes;
        self.networks = networks;
    }

    fn put_snapshot(&mut self, snap: Snapshot)
        ensures
            final(self).state() == old(self).state().with_snapshot(snap.deep_view()),
    {
        let Snapshot { containers, images, mut volumes, mut networks } = snap;
        annotate_usage(&containers, &mut volumes, &mut networks);
        let live = ids_of(&containers);
        self.keep_readings(&live);
        self.put_lists(containers, images, volumes, networks);
    }

    fn keep_readings(&mut self, live: &NameSet)
        ensures
            final(self).state() == (AppState {
                stats: old(self).state().stats.restrict(live@),
                ..old(self).state()
            }),
    {
        reveal(readings);
        let ghost before = self.stats@;
        self.stats.keep_only(live);
        assert(self.stats@.map_values(|s: StatSample| s.deep_view()) =~= before.map_values(
            |s: StatSample| s.deep_view(),
        ).restrict(live@));
    }

    fn take_snapshot(&mut self, snap: Snapshot, now: u64)
        requires
            old(self).wf(),
        ensures
            final(self).state() == old(self).state().snapshot_taken(snap.deep_view(), now),
            final(self).wf(),
    {
        reveal(AppState::snapshot_taken);
        let ghost v = self.state();
        self.put_snapshot(snap);
        self.effect(Effect::SyncStats);
        proof {
            lists_may_change(v, self.state());
        }
        self.rebuild_all_views();
        self.sync_log_target(now);
    }

    fn note_reading(&mut self, id: String, sample: StatSample)
        ensures
            final(self).state() == (AppState {
                stats: old(self).state().stats.insert(id@, sample.deep_view()),
                ..old(self).state()
            }),
    {
        reveal(readings);
        let ghost before = self.stats@;
        let ghost key = id@;
        self.stats.insert(id, sample);
        assert(self.stats@.map_values(|s: StatSample| s.deep_view()) =~= before.map_values(
            |s: StatSample| s.deep_view(),
        ).insert(key, sample.deep_view()));
    }

    fn take_stat(&mut self, id: String, sample: StatSample)
        requires
            old(self).wf(),
        ensures
            final(self).state() == old(self).state().stat_taken(id@, sample.deep_view()),
            final(self).wf(),
    {
        reveal(AppState::stat_taken);
        let ghost v = self.state();
        self.note_reading(id, sample);
        proof {
            wf_carries_over(v, self.state());
        }
        let tab = self.tab;
        let sort = self.sound_sort();
        if sort == Sort::Cpu || sort == Sort::Mem {
            self.rebuild(tab);
        }
    }

    fn sound_sort(&self) -> (out: Sort)
        requires
            self.wf(),
        ensures
            out == self.state().sort_of(self.state().tab),
    {
        reveal(AppState::wf);
        self.sort()
    }

    fn add_line(&mut self, line: LogLine)
        requires
            old(self).state().logs.sound(),
        ensures
            final(self).state() == (AppState {
                logs: old(self).state().logs.with_line(line.deep_view()),
                ..old(self).state()
            }),
    {
        reveal(part);
        self.logs.push_line(line);
    }

    /// The generation of the log pane's own stream.
    pub fn generation(&self) -> (out: u64)
        ensures
            out == self.state().logs.generation,
    {
        reveal(part);
        self.logs.generation
    }

    fn take_line(&mut self, generation: u64, line: LogLine)
        requires
            old(self).wf(),
        ensures
            final(self).state() == old(self).state().line_taken(generation, line.deep_view()),
            final(self).wf(),
    {
        reveal(AppState::line_taken);
        reveal(AppState::wf);
        let ghost v = self.state();
        if generation == self.generation() {
            self.add_line(line);
        }
        proof {
            wf_carries_over(v, self.state());
        }
    }

    fn end_loading(&mut self, error: Option<String>)
        ensures
            final(self).state() == (AppState {
                logs: LogView {
                    loading: false,
                    error: match error {
                        Some(message) => Some(message@),
                        None => old(self).state().logs.error,
                    },
                    ..old(self).state().logs
                },
                ..old(self).state()
            }),
    {
        reveal(part);
        self.logs.loading = false;
        if error.is_some() {
            self.logs.error = error;
        }
    }

    fn take_loading_over(&mut self, generation: u64)
        requires
            old(self).wf(),
        ensures
            final(self).state() == old(self).state().loading_over(generation),
            final(self).wf(),
    {
        reveal(AppState::loading_over);
        let ghost v = self.state();
        // Stop the spinner but leave any error in place: the pane then falls
        // through to "no output yet", which is the truth.
        if generation == self.generation() {
            self.end_loading(None);
        }
        proof {
            wf_carries_over(v, self.state());
        }
    }

    fn take_log_error(&mut self, generation: u64, message: String)
        requires
            old(self).wf(),
        ensures
            final(self).state() == old(self).state().logs_failed(generation, message@),
            final(self).wf(),
    {
        reveal(AppState::logs_failed);
        let ghost v = self.state();
        if generation == self.generation() {
            self.end_loading(Some(message));
        }
        proof {
            wf_carries_over(v, self.state());
        }
    }

    fn forget_pending(&mut self, id: &str)
        ensures
            final(self).state() == (AppState {
                pending: old(self).state().pending.remove(id@),
                ..old(self).state()
            }),
    {
        reveal(verbs);
        let ghost before = self.pending@;
        self.pending.remove(id);
        assert(self.pending@.map_values(|s: &'static str| s@) =~= before.map_values(
            |s: &'static str| s@,
        ).remove(id@));
    }

    fn forget_global(&mut self, description: &str)
        ensures
            final(self).state() == (AppState {
                global_pending: old(self).state().global_pending.filter(
                    other_than(description@),
                ),
                ..old(self).state()
            }),
    {
        reveal(part);
        let ghost all = self.global_pending.deep_view();
        let ghost other = other_than(description@);
        let mut kept: Vec<String> = Vec::new();
        let mut i: usize = 0;
        assert(kept.deep_view() =~= all.take(0).filter(other)) by {
            reveal(Seq::filter);
        }
        while i < self.global_pending.len()
            invariant
                i <= self.global_pending.len(),
                all == self.global_pending.deep_view(),
                other == other_than(description@),
                kept.deep_view() == all.take(i as int).filter(other),
            decreases self.global_pending.len() - i,
        {
            assert(all[i as int] == self.global_pending@[i as int]@);
            assert(all.take(i + 1).drop_last() =~= all.take(i as int));
            assert(all.take(i + 1).filter(other) == (if other(all[i as int]) {
                all.take(i as int).filter(other).push(all[i as int])
            } else {
                all.take(i as int).filter(other)
            })) by {
                reveal(Seq::filter);
            }
            if !same(&self.global_pending[i], description) {
                put(&mut kept, owned(&self.global_pending[i]));
            }
            i += 1;
        }
        assert(all.take(all.len() as int) =~= all);
        self.global_pending = kept;
    }

    fn end_job(&mut self, job: &Job)
        ensures
            final(self).state() == old(self).state().job_over(job.deep_view()),
    {
        match job.target_id() {
            Some(id) => {
                self.forget_pending(id);
            },
            None => {},
        }
        let description = job.describe();
        self.forget_global(&description);
    }

    fn take_job_done(&mut self, job: Job, result: Result<String, String>, now: u64)
        requires
            old(self).wf(),
        ensures
            final(self).state() == old(self).state().job_done(
                job.deep_view(),
                match result {
                    Ok(msg) => Ok(msg@),
                    Err(msg) => Err(msg@),
                },
                now,
            ),
            final(self).wf(),
    {
        reveal(AppState::job_done);
        let ghost v = self.state();
        self.end_job(&job);
        match result {
            Ok(msg) => {
                self.toast(ToastKind::Success, msg, now);
            },
            Err(msg) => {
                self.toast(ToastKind::Error, msg, now);
            },
        }
        self.effect(Effect::Refresh);
        proof {
            wf_carries_over(v, self.state());
        }
    }

    fn note_outage(&mut self, error: Option<String>)
        ensures
            final(self).state() == (AppState {
                daemon_error: error.deep_view(),
                ..old(self).state()
            }),
    {
        reveal(part);
        self.daemon_error = error;
    }

    fn note_daemon(&mut self, info: DaemonInfo)
        requires
            old(self).wf(),
        ensures
            final(self).state() == (AppState { daemon: info.deep_view(), ..old(self).state() }),
            final(self).wf(),
    {
        let ghost v = self.state();
        reveal(part);
        self.daemon = info;
        proof {
            wf_carries_over(v, self.state());
        }
    }

    fn is_out(&self) -> (out: bool)
        ensures
            out == (self.state().daemon_error is Some),
    {
        reveal(part);
        self.daemon_error.is_some()
    }

    fn take_outage(&mut self, msg: String)
        requires
            old(self).wf(),
        ensures
            final(self).state() == old(self).state().daemon_lost(msg@),
            final(self).wf(),
    {
        reveal(AppState::daemon_lost);
        let ghost v = self.state();
        self.note_outage(Some(msg));
        self.effect(Effect::ClearStats);
        proof {
            wf_carries_over(v, self.state());
        }
    }

    fn take_return(&mut self, now: u64)
        requires
            old(self).wf(),
        ensures
            final(self).state() == old(self).state().daemon_found(now),
            final(self).wf(),
    {
        reveal(AppState::daemon_found);
        let ghost v = self.state();
        if self.is_out() {
            self.note_outage(None);
            self.toast(ToastKind::Success, owned("reconnected to the docker daemon"), now);
        }
        proof {
            wf_carries_over(v, self.state());
        }
    }

    /// Take in what a background task has to say.
    pub fn on_app_event(&mut self, ev: AppEvent, now: u64)
        requires
            old(self).wf(),
        ensures
            final(self).state() == old(self).state().told(ev.deep_view(), now),
            final(self).wf(),
    {
        reveal(AppState::told);
        self.wake();
        match ev {
            AppEvent::Snapshot(snap) => self.take_snapshot(snap, now),
            AppEvent::Stat { id, sample } => self.take_stat(id, sample),
            AppEvent::LogLine { generation, line } => self.take_line(generation, line),
            AppEvent::LogAttached { generation } => self.take_loading_over(generation),
            AppEvent::LogEnd { generation } => self.take_loading_over(generation),
            AppEvent::LogError { generation, message } => self.take_log_error(
                generation,
                message,
            ),
            AppEvent::JobDone { job, result } => self.take_job_done(job, result, now),
            AppEvent::Daemon(info) => self.note_daemon(info),
            AppEvent::DaemonError(msg) => self.take_outage(msg),
            AppEvent::DaemonOk => self.take_return(now),
        }
    }
}

} // verus!
