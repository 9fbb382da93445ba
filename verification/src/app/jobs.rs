//! Jobs, and the questions asked before them.

use vstd::prelude::*;

use crate::action::Command;
use crate::app::state::{part, wf_carries_over, App, AppState, Effect, EffectView};
use crate::app::{Mode, Tab, ToastKind};
use crate::docker::actions::{description_of, destructive, target_of, verb_of, Job, JobView};
use crate::docker::model::{is_predefined_name, predefined, reference_text, State};
use crate::text::{cat2, owned};
use crate::util::format::{short, short_id};

verus! {

broadcast use vstd::string::group_string_axioms;

impl AppState {
    /// What `copy id` would copy.
    #[verifier::opaque]
    pub open spec fn copyable(self) -> Option<Seq<char>> {
        match self.tab {
            Tab::Containers => match self.container() {
                Some(c) => Some(c.id),
                None => None,
            },
            Tab::Images => match self.image() {
                Some(i) => Some(i.id),
                None => None,
            },
            Tab::Volumes => match self.volume() {
                Some(v) => Some(v.name),
                None => None,
            },
            Tab::Networks => match self.network() {
                Some(n) => Some(n.id),
                None => None,
            },
        }
    }

    /// The selected id on its way to the clipboard.
    #[verifier::opaque]
    pub open spec fn id_copied(self) -> AppState {
        match self.copyable() {
            Some(value) => self.effecting(EffectView::Copy(value)),
            None => self,
        }
    }

    /// A shell asked for in the selected container.
    #[verifier::opaque]
    pub open spec fn exec_asked(self, now: u64) -> AppState {
        match self.container() {
            None => self,
            Some(c) => if c.state.running() {
                AppState { exec_request: Some((c.id, c.name)), ..self }
            } else {
                self.toasted(ToastKind::Error, c.name + " is not running"@, now)
            },
        }
    }

    /// The job a command means for the current selection, if any.
    #[verifier::opaque]
    pub open spec fn job_for(self, cmd: Command) -> Option<JobView> {
        match self.tab {
            Tab::Containers => if cmd == Command::Prune {
                Some(JobView::PruneContainers)
            } else {
                match self.container() {
                    None => None,
                    Some(c) => match cmd {
                        Command::Start => Some(JobView::Start { id: c.id, name: c.name }),
                        Command::Stop => Some(JobView::Stop { id: c.id, name: c.name }),
                        Command::Restart => Some(JobView::Restart { id: c.id, name: c.name }),
                        Command::Pause => Some(
                            if c.state == State::Paused {
                                JobView::Unpause { id: c.id, name: c.name }
                            } else {
                                JobView::Pause { id: c.id, name: c.name }
                            },
                        ),
                        Command::Kill => Some(JobView::Kill { id: c.id, name: c.name }),
                        Command::Remove => Some(
                            JobView::RemoveContainer {
                                id: c.id,
                                name: c.name,
                                force: c.state.live(),
                            },
                        ),
                        _ => None,
                    },
                }
            },
            Tab::Images => if cmd == Command::Prune {
                Some(JobView::PruneImages)
            } else {
                match self.image() {
                    None => None,
                    Some(i) => if cmd == Command::Remove {
                        Some(
                            JobView::RemoveImage {
                                id: if i.dangling {
                                    i.id
                                } else {
                                    reference_text(i)
                                },
                                name: reference_text(i),
                                force: false,
                            },
                        )
                    } else {
                        None
                    },
                }
            },
            Tab::Volumes => if cmd == Command::Prune {
                Some(JobView::PruneVolumes)
            } else {
                match self.volume() {
                    None => None,
                    Some(v) => if cmd == Command::Remove {
                        Some(JobView::RemoveVolume { name: v.name, force: false })
                    } else {
                        None
                    },
                }
            },
            Tab::Networks => if cmd == Command::Prune {
                Some(JobView::PruneNetworks)
            } else {
                match self.network() {
                    None => None,
                    Some(n) => if cmd == Command::Remove {
                        Some(JobView::RemoveNetwork { id: n.id, name: n.name })
                    } else {
                        None
                    },
                }
            },
        }
    }

    /// A job under way.
    #[verifier::opaque]
    pub open spec fn job_started(self, job: JobView) -> AppState {
        let noted = match target_of(job) {
            Some(id) => AppState { pending: self.pending.insert(id, verb_of(job)), ..self },
            None => AppState {
                global_pending: self.global_pending.push(description_of(job)),
                ..self
            },
        };
        noted.effecting(EffectView::StartJob(job))
    }

    /// A job asked for: refused where it can't work, asked about where it
    /// destroys something, and started otherwise.
    #[verifier::opaque]
    pub open spec fn job_submitted(self, job: JobView, now: u64) -> AppState {
        match job {
            JobView::RemoveNetwork { name, .. } => if predefined(name) {
                self.toasted(ToastKind::Error, name + " is a built-in network"@, now)
            } else {
                self.job_asked(job)
            },
            _ => self.job_asked(job),
        }
    }

    /// A job started, or asked about first.
    #[verifier::opaque]
    pub open spec fn job_asked(self, job: JobView) -> AppState {
        if destructive(job) {
            AppState { confirm: Some(job), confirm_accept: true, mode: Mode::Confirm, ..self }
        } else {
            self.job_started(job)
        }
    }

    /// What copying came to.
    #[verifier::opaque]
    pub open spec fn told_copied(
        self,
        value: Seq<char>,
        outcome: Result<(), Seq<char>>,
        now: u64,
    ) -> AppState {
        match outcome {
            Ok(_) => self.toasted(ToastKind::Success, "copied "@ + short(value), now),
            Err(e) => self.toasted(ToastKind::Error, "clipboard failed: "@ + e, now),
        }
    }

    /// The job asked about started.
    #[verifier::opaque]
    pub open spec fn confirm_accepted(self) -> AppState {
        let started = match self.confirm {
            Some(job) => (AppState { confirm: None, ..self }).job_started(job),
            None => self,
        };
        AppState { mode: Mode::Normal, ..started }
    }

    /// The job asked about forgotten.
    #[verifier::opaque]
    pub open spec fn confirm_cancelled(self) -> AppState {
        AppState { confirm: None, mode: Mode::Normal, ..self }
    }
}

impl App {
    fn copyable(&self) -> (out: Option<String>)
        ensures
            out.deep_view() == self.state().copyable(),
    {
        reveal(AppState::copyable);
        match self.tab {
            Tab::Containers => match self.selected_container() {
                Some(c) => Some(owned(&c.id)),
                None => None,
            },
            Tab::Images => match self.selected_image() {
                Some(i) => Some(owned(&i.id)),
                None => None,
            },
            Tab::Volumes => match self.selected_volume() {
                Some(v) => Some(owned(&v.name)),
                None => None,
            },
            Tab::Networks => match self.selected_network() {
                Some(n) => Some(owned(&n.id)),
                None => None,
            },
        }
    }

    /// Ask for the selected id to be put on the clipboard.
    pub fn copy_id(&mut self)
        requires
            old(self).wf(),
        ensures
            final(self).state() == old(self).state().id_copied(),
            final(self).wf(),
    {
        reveal(AppState::id_copied);
        let ghost v = self.state();
        match self.copyable() {
            Some(value) => {
                self.effect(Effect::Copy(value));
            },
            None => {},
        }
        proof {
            wf_carries_over(v, self.state());
        }
    }

    /// Say what copying came to.
    pub fn on_copied(&mut self, value: &str, outcome: Result<(), String>, now: u64)
        requires
            old(self).wf(),
        ensures
            final(self).state() == old(self).state().told_copied(
                value@,
                match outcome {
                    Ok(_) => Ok(()),
                    Err(e) => Err(e@),
                },
                now,
            ),
            final(self).wf(),
    {
        reveal(AppState::told_copied);
        let ghost v = self.state();
        match outcome {
            Ok(_) => {
                let id = short_id(value);
                self.toast(ToastKind::Success, cat2("copied ", &id), now);
            },
            Err(e) => {
                self.toast(ToastKind::Error, cat2("clipboard failed: ", &e), now);
            },
        }
        proof {
            wf_carries_over(v, self.state());
        }
    }

    /// Ask for a shell in the selected container.
    pub fn request_exec(&mut self, now: u64)
        requires
            old(self).wf(),
        ensures
            final(self).state() == old(self).state().exec_asked(now),
            final(self).wf(),
    {
        reveal(AppState::exec_asked);
        let ghost v = self.state();
        let chosen = match self.selected_container() {
            Some(c) => Some((owned(&c.id), owned(&c.name), c.state.is_running())),
            None => None,
        };
        match chosen {
            None => {},
            Some((id, name, running)) => {
                if running {
                    self.ask_exec(id, name);
                } else {
                    self.toast(ToastKind::Error, cat2(&name, " is not running"), now);
                }
            },
        }
        proof {
            wf_carries_over(v, self.state());
        }
    }

    fn container_job(&self, cmd: Command) -> (out: Option<Job>)
        requires
            self.state().tab == Tab::Containers,
        ensures
            out.deep_view() == self.state().job_for(cmd),
    {
        reveal(AppState::job_for);
        if cmd == Command::Prune {
            return Some(Job::PruneContainers);
        }
        match self.selected_container() {
            None => None,
            Some(c) => {
                let id = owned(&c.id);
                let name = owned(&c.name);
                match cmd {
                    Command::Start => Some(Job::Start { id, name }),
                    Command::Stop => Some(Job::Stop { id, name }),
                    Command::Restart => Some(Job::Restart { id, name }),
                    Command::Pause => if c.state == State::Paused {
                        Some(Job::Unpause { id, name })
                    } else {
                        Some(Job::Pause { id, name })
                    },
                    Command::Kill => Some(Job::Kill { id, name }),
                    Command::Remove => {
                        let force = c.state.is_live();
                        Some(Job::RemoveContainer { id, name, force })
                    },
                    _ => None,
                }
            },
        }
    }

    /// Turn a command plus the current selection into a concrete job.
    pub fn build_job(&self, cmd: Command) -> (out: Option<Job>)
        ensures
            out.deep_view() == self.state().job_for(cmd),
    {
        reveal(AppState::job_for);
        match self.tab {
            Tab::Containers => self.container_job(cmd),
            Tab::Images => {
                if cmd == Command::Prune {
                    return Some(Job::PruneImages);
                }
                match self.selected_image() {
                    None => None,
                    Some(i) => if cmd == Command::Remove {
                        // Removing by `repo:tag` untags rather than nuking every
                        // tag that shares the layer stack — which is what someone
                        // looking at a tagged row means.
                        let id = if i.dangling {
                            owned(&i.id)
                        } else {
                            i.reference()
                        };
                        Some(Job::RemoveImage { id, name: i.reference(), force: false })
                    } else {
                        None
                    },
                }
            },
            Tab::Volumes => {
                if cmd == Command::Prune {
                    return Some(Job::PruneVolumes);
                }
                match self.selected_volume() {
                    None => None,
                    Some(v) => if cmd == Command::Remove {
                        Some(Job::RemoveVolume { name: owned(&v.name), force: false })
                    } else {
                        None
                    },
                }
            },
            Tab::Networks => {
                if cmd == Command::Prune {
                    return Some(Job::PruneNetworks);
                }
                match self.selected_network() {
                    None => None,
                    Some(n) => if cmd == Command::Remove {
                        Some(Job::RemoveNetwork { id: owned(&n.id), name: owned(&n.name) })
                    } else {
                        None
                    },
                }
            },
        }
    }

    /// Set a job going.
    pub fn start_job(&mut self, job: Job)
        requires
            old(self).wf(),
        ensures
            final(self).state() == old(self).state().job_started(job.deep_view()),
            final(self).wf(),
    {
        reveal(AppState::job_started);
        let ghost v = self.state();
        let target = match job.target_id() {
            Some(id) => Some(owned(id)),
            None => None,
        };
        match target {
            Some(id) => {
                self.note_pending(id, job.verb());
            },
            None => {
                self.note_global(job.describe());
            },
        }
        self.effect(Effect::StartJob(job));
        proof {
            wf_carries_over(v, self.state());
        }
    }

    fn ask_or_start(&mut self, job: Job)
        requires
            old(self).wf(),
        ensures
            final(self).state() == old(self).state().job_asked(job.deep_view()),
            final(self).wf(),
    {
        reveal(AppState::job_asked);
        let ghost v = self.state();
        if job.needs_confirmation() {
            self.ask_confirm(job);
            proof {
                wf_carries_over(v, self.state());
            }
        } else {
            self.start_job(job);
        }
    }

    /// Take a job on.
    pub fn submit(&mut self, job: Job, now: u64)
        requires
            old(self).wf(),
        ensures
            final(self).state() == old(self).state().job_submitted(job.deep_view(), now),
            final(self).wf(),
    {
        reveal(AppState::job_submitted);
        let ghost v = self.state();
        // Built-in networks can't be deleted; say so rather than letting the
        // daemon return a confusing error.
        let refused = match &job {
            Job::RemoveNetwork { name, .. } => if is_predefined_name(name) {
                Some(cat2(name, " is a built-in network"))
            } else {
                None
            },
            _ => None,
        };
        match refused {
            Some(text) => {
                self.toast(ToastKind::Error, text, now);
                proof {
                    wf_carries_over(v, self.state());
                }
            },
            None => {
                self.ask_or_start(job);
            },
        }
    }

    fn take_confirm(&mut self) -> (out: Option<Job>)
        ensures
            out.deep_view() == old(self).state().confirm,
            final(self).state() == (AppState { confirm: None, ..old(self).state() }),
    {
        reveal(part);
        self.confirm.take()
    }

    /// Answer the question with yes.
    pub fn accept_confirm(&mut self)
        requires
            old(self).wf(),
        ensures
            final(self).state() == old(self).state().confirm_accepted(),
            final(self).wf(),
    {
        reveal(AppState::confirm_accepted);
        let ghost v = self.state();
        let job = self.take_confirm();
        proof {
            wf_carries_over(v, self.state());
        }
        match job {
            Some(job) => {
                self.start_job(job);
            },
            None => {},
        }
        let ghost w = self.state();
        self.set_mode(Mode::Normal);
        proof {
            wf_carries_over(w, self.state());
        }
    }

    /// Answer the question with no.
    pub fn cancel_confirm(&mut self)
        requires
            old(self).wf(),
        ensures
            final(self).state() == old(self).state().confirm_cancelled(),
            final(self).wf(),
    {
        reveal(AppState::confirm_cancelled);
        let ghost v = self.state();
        self.drop_confirm();
        proof {
            wf_carries_over(v, self.state());
        }
    }
}

} // verus!
