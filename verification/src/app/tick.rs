//! The passing of time.

use vstd::prelude::*;

use crate::app::state::{part, verbs, wf_carries_over, App, AppState, Effect, EffectView};
use crate::app::{Toast, ToastView, LOG_DEBOUNCE, TOAST_TTL};
use crate::text::{owned, put};

verus! {

broadcast use vstd::string::group_string_axioms;

/// The time from `since` to `now`, both in milliseconds.
pub open spec fn elapsed(now: u64, since: u64) -> int {
    if now >= since {
        now - since
    } else {
        0
    }
}

/// The milliseconds from `since` to `now`.
pub fn elapsed_since(now: u64, since: u64) -> (out: u64)
    ensures
        out == elapsed(now, since),
{
    if now >= since {
        now - since
    } else {
        0
    }
}

impl AppState {
    /// Whether something on screen moves by itself.
    pub open spec fn animating(self) -> bool {
        self.pending != Map::<Seq<char>, Seq<char>>::empty() || self.global_pending.len() > 0
            || self.logs.loading || self.toasts.len() > 0
    }

    /// One frame of the spinner further, if anything is moving.
    #[verifier::opaque]
    pub open spec fn spun(self) -> AppState {
        if self.animating() {
            AppState {
                spinner: if self.spinner < usize::MAX {
                    (self.spinner + 1) as usize
                } else {
                    0
                },
                dirty: true,
                ..self
            }
        } else {
            self
        }
    }

    /// Messages that have been up long enough gone.
    #[verifier::opaque]
    pub open spec fn toasts_expired(self, now: u64) -> AppState {
        let kept = self.toasts.filter(|t: ToastView| elapsed(now, t.born) < TOAST_TTL);
        AppState { toasts: kept, dirty: self.dirty || kept.len() != self.toasts.len(), ..self }
    }

    /// The log stream of a container asked for, unless the selection moved on
    /// again during the debounce.
    pub open spec fn logs_attached(self, id: Seq<char>) -> AppState {
        if self.logs.container_id == Some(id) {
            self.effecting(
                EffectView::AttachLogs { id, generation: self.logs.generation },
            )
        } else {
            self
        }
    }

    /// The log stream asked for, once the debounce is waited out.
    #[verifier::opaque]
    pub open spec fn logs_due(self, now: u64) -> AppState {
        match self.log_pending {
            Some((id, since)) => if elapsed(now, since) >= LOG_DEBOUNCE {
                (AppState { log_pending: None, dirty: true, ..self }).logs_attached(id)
            } else {
                self
            },
            None => self,
        }
    }

    /// What the passing of time does: animation, toast expiry and the debounced
    /// log attach.
    pub open spec fn ticked(self, now: u64) -> AppState {
        self.spun().toasts_expired(now).logs_due(now)
    }
}

impl App {
    fn moves(&self) -> (out: bool)
        ensures
            out == self.state().animating(),
    {
        reveal(part);
        reveal(verbs);
        let idle = self.pending.is_empty();
        proof {
            let words = self.pending@.map_values(|s: &'static str| s@);
            if idle {
                assert(words =~= Map::<Seq<char>, Seq<char>>::empty());
            } else if words == Map::<Seq<char>, Seq<char>>::empty() {
                assert(words.dom() =~= self.pending@.dom());
                assert(self.pending@ =~= Map::<Seq<char>, &'static str>::empty());
            }
        }
        !idle || self.global_pending.len() > 0 || self.logs.loading || self.toasts.len() > 0
    }

    fn spin(&mut self)
        ensures
            final(self).state() == old(self).state().spun(),
    {
        reveal(AppState::spun);
        if self.moves() {
            self.spinner = if self.spinner < usize::MAX {
                self.spinner + 1
            } else {
                0
            };
            self.dirty = true;
        }
    }

    fn expire_toasts(&mut self, now: u64)
        ensures
            final(self).state() == old(self).state().toasts_expired(now),
    {
        reveal(part);
        reveal(AppState::toasts_expired);
        let ghost all = self.toasts.deep_view();
        let ghost fresh = |t: ToastView| elapsed(now, t.born) < TOAST_TTL;
        let mut kept: Vec<Toast> = Vec::new();
        let mut i: usize = 0;
        assert(kept.deep_view() =~= all.take(0).filter(fresh)) by {
            reveal(Seq::filter);
        }
        while i < self.toasts.len()
            invariant
                i <= self.toasts.len(),
                all == self.toasts.deep_view(),
                fresh == |t: ToastView| elapsed(now, t.born) < TOAST_TTL,
                kept.deep_view() == all.take(i as int).filter(fresh),
            decreases self.toasts.len() - i,
        {
            assert(all[i as int] == self.toasts@[i as int].deep_view());
            assert(all.take(i + 1).drop_last() =~= all.take(i as int));
            assert(all.take(i + 1).filter(fresh) == (if fresh(all[i as int]) {
                all.take(i as int).filter(fresh).push(all[i as int])
            } else {
                all.take(i as int).filter(fresh)
            })) by {
                reveal(Seq::filter);
            }
            let toast = &self.toasts[i];
            if elapsed_since(now, toast.born) < TOAST_TTL {
                put(
                    &mut kept,
                    Toast { kind: toast.kind, text: owned(&toast.text), born: toast.born },
                );
            }
            i += 1;
        }
        assert(all.take(all.len() as int) =~= all);
        if kept.len() != self.toasts.len() {
            self.dirty = true;
        }
        self.toasts = kept;
    }

    /// Ask for the log stream of a container.
    pub fn attach_logs(&mut self, id: String)
        ensures
            final(self).state() == old(self).state().logs_attached(id@),
    {
        if self.watches(&id) {
            let generation: u64 = self.generation();
            self.effect(Effect::AttachLogs { id, generation });
        }
    }

    fn due_logs(&self, now: u64) -> (out: Option<String>)
        ensures
            out.deep_view() == match self.state().log_pending {
                Some((id, since)) => if elapsed(now, since) >= LOG_DEBOUNCE {
                    Some(id)
                } else {
                    None
                },
                None => None,
            },
    {
        match &self.log_pending {
            Some(pending) => if elapsed_since(now, pending.1) >= LOG_DEBOUNCE {
                Some(owned(&pending.0))
            } else {
                None
            },
            None => None,
        }
    }

    fn attach_due_logs(&mut self, now: u64)
        ensures
            final(self).state() == old(self).state().logs_due(now),
    {
        reveal(AppState::logs_due);
        match self.due_logs(now) {
            Some(id) => {
                self.log_pending = None;
                self.dirty = true;
                self.attach_logs(id);
            },
            None => {},
        }
    }

    /// Called on the render tick. Handles animation, toast expiry and the
    /// debounced log attach.
    pub fn on_tick(&mut self, now: u64)
        requires
            old(self).wf(),
        ensures
            final(self).state() == old(self).state().ticked(now),
            final(self).wf(),
    {
        let ghost v = self.state();
        self.spin();
        self.expire_toasts(now);
        self.attach_due_logs(now);
        proof {
            reveal(AppState::spun);
            reveal(AppState::toasts_expired);
            reveal(AppState::logs_due);
            wf_carries_over(v, self.state());
        }
    }
}

} // verus!
