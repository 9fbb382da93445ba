//! Mutations.
//!
//! Every one of these runs apart from the UI — a `stop` on a container that
//! ignores SIGTERM takes ten seconds, and the rest of the app has to stay
//! responsive throughout. What is asked of the daemon, and what is said about
//! its answer, is decided here.

use vstd::prelude::*;

use crate::docker::{friendly, friendly_error, ApiError};
use crate::text::{cat2, cat3, dec, decimal, owned};
use crate::util::format::{bytes, bytes_text};

verus! {

broadcast use vstd::string::group_string_axioms;

/// A mutation, fully resolved against a target. Held by the confirm dialog
/// between "the user pressed `d`" and "the user said yes".
#[derive(Debug, Clone, PartialEq, Eq)]
pub enum Job {
    Start { id: String, name: String },
    Stop { id: String, name: String },
    Restart { id: String, name: String },
    Pause { id: String, name: String },
    Unpause { id: String, name: String },
    Kill { id: String, name: String },
    RemoveContainer { id: String, name: String, force: bool },
    RemoveImage { id: String, name: String, force: bool },
    RemoveVolume { name: String, force: bool },
    RemoveNetwork { id: String, name: String },
    PruneContainers,
    PruneImages,
    PruneVolumes,
    PruneNetworks,
}

/// The mathematical value of a [`Job`].
#[verifier::ext_equal]
pub enum JobView {
    Start { id: Seq<char>, name: Seq<char> },
    Stop { id: Seq<char>, name: Seq<char> },
    Restart { id: Seq<char>, name: Seq<char> },
    Pause { id: Seq<char>, name: Seq<char> },
    Unpause { id: Seq<char>, name: Seq<char> },
    Kill { id: Seq<char>, name: Seq<char> },
    RemoveContainer { id: Seq<char>, name: Seq<char>, force: bool },
    RemoveImage { id: Seq<char>, name: Seq<char>, force: bool },
    RemoveVolume { name: Seq<char>, force: bool },
    RemoveNetwork { id: Seq<char>, name: Seq<char> },
    PruneContainers,
    PruneImages,
    PruneVolumes,
    PruneNetworks,
}

impl DeepView for Job {
    type V = JobView;

    open spec fn deep_view(&self) -> JobView {
        match self {
            Job::Start { id, name } => JobView::Start { id: id@, name: name@ },
            Job::Stop { id, name } => JobView::Stop { id: id@, name: name@ },
            Job::Restart { id, name } => JobView::Restart { id: id@, name: name@ },
            Job::Pause { id, name } => JobView::Pause { id: id@, name: name@ },
            Job::Unpause { id, name } => JobView::Unpause { id: id@, name: name@ },
            Job::Kill { id, name } => JobView::Kill { id: id@, name: name@ },
            Job::RemoveContainer { id, name, force } => JobView::RemoveContainer { id: id@, name: name@, force: *force },
            Job::RemoveImage { id, name, force } => JobView::RemoveImage { id: id@, name: name@, force: *force },
            Job::RemoveVolume { name, force } => JobView::RemoveVolume { name: name@, force: *force },
            Job::RemoveNetwork { id, name } => JobView::RemoveNetwork { id: id@, name: name@ },
            Job::PruneContainers => JobView::PruneContainers,
            Job::PruneImages => JobView::PruneImages,
            Job::PruneVolumes => JobView::PruneVolumes,
            Job::PruneNetworks => JobView::PruneNetworks,
        }
    }
}

/// The id a job is in flight against.
pub open spec fn target_of(job: JobView) -> Option<Seq<char>> {
    match job {
        JobView::Start { id, .. } => Some(id),
        JobView::Stop { id, .. } => Some(id),
        JobView::Restart { id, .. } => Some(id),
        JobView::Pause { id, .. } => Some(id),
        JobView::Unpause { id, .. } => Some(id),
        JobView::Kill { id, .. } => Some(id),
        JobView::RemoveContainer { id, .. } => Some(id),
        JobView::RemoveImage { id, .. } => Some(id),
        JobView::RemoveVolume { name, .. } => Some(name),
        JobView::RemoveNetwork { id, .. } => Some(id),
        _ => None,
    }
}

/// One present-tense word for a job.
pub open spec fn verb_of(job: JobView) -> Seq<char> {
    match job {
        JobView::Start { .. } => "starting"@,
        JobView::Stop { .. } => "stopping"@,
        JobView::Restart { .. } => "restarting"@,
        JobView::Pause { .. } => "pausing"@,
        JobView::Unpause { .. } => "resuming"@,
        JobView::Kill { .. } => "killing"@,
        JobView::RemoveContainer { .. } => "removing"@,
        JobView::RemoveImage { .. } => "removing"@,
        JobView::RemoveVolume { .. } => "removing"@,
        JobView::RemoveNetwork { .. } => "removing"@,
        JobView::PruneContainers => "pruning"@,
        JobView::PruneImages => "pruning"@,
        JobView::PruneVolumes => "pruning"@,
        JobView::PruneNetworks => "pruning"@,
    }
}

/// A present-tense description of a job.
pub open spec fn description_of(job: JobView) -> Seq<char> {
    match job {
        JobView::Start { name, .. } => "starting "@ + name,
        JobView::Stop { name, .. } => "stopping "@ + name,
        JobView::Restart { name, .. } => "restarting "@ + name,
        JobView::Pause { name, .. } => "pausing "@ + name,
        JobView::Unpause { name, .. } => "resuming "@ + name,
        JobView::Kill { name, .. } => "killing "@ + name,
        JobView::RemoveContainer { name, .. } => "removing container "@ + name,
        JobView::RemoveImage { name, .. } => "removing image "@ + name,
        JobView::RemoveVolume { name, .. } => "removing volume "@ + name,
        JobView::RemoveNetwork { name, .. } => "removing network "@ + name,
        JobView::PruneContainers => "pruning stopped containers"@,
        JobView::PruneImages => "pruning dangling images"@,
        JobView::PruneVolumes => "pruning unused volumes"@,
        JobView::PruneNetworks => "pruning unused networks"@,
    }
}

/// A past-tense confirmation of a job.
pub open spec fn done_text(job: JobView) -> Seq<char> {
    match job {
        JobView::Start { name, .. } => "started "@ + name,
        JobView::Stop { name, .. } => "stopped "@ + name,
        JobView::Restart { name, .. } => "restarted "@ + name,
        JobView::Pause { name, .. } => "paused "@ + name,
        JobView::Unpause { name, .. } => "resumed "@ + name,
        JobView::Kill { name, .. } => "killed "@ + name,
        JobView::RemoveContainer { name, .. } => "removed container "@ + name,
        JobView::RemoveImage { name, .. } => "removed image "@ + name,
        JobView::RemoveVolume { name, .. } => "removed volume "@ + name,
        JobView::RemoveNetwork { name, .. } => "removed network "@ + name,
        _ => "done"@,
    }
}

/// Whether a job destroys something, and so is asked about first.
pub open spec fn destructive(job: JobView) -> bool {
    match job {
        JobView::Start { .. } | JobView::Stop { .. } | JobView::Restart { .. } | JobView::Pause { .. } | JobView::Unpause { .. } => false,
        _ => true,
    }
}

/// The question to ask before a job, and what it will do.
pub open spec fn prompt_of(job: JobView) -> (Seq<char>, Seq<char>) {
    match job {
        JobView::Kill { name, .. } => ("Kill container?"@, name + " will be sent SIGKILL and stopped immediately."@),
        JobView::RemoveContainer { name, .. } => ("Remove container?"@, name + " will be deleted. Anonymous volumes are kept."@),
        JobView::RemoveImage { name, .. } => ("Remove image?"@, name + " will be deleted."@),
        JobView::RemoveVolume { name, .. } => ("Remove volume?"@, name + " and everything stored in it will be deleted."@),
        JobView::RemoveNetwork { name, .. } => ("Remove network?"@, name + " will be deleted."@),
        JobView::PruneContainers => ("Prune containers?"@, "Every stopped container will be deleted."@),
        JobView::PruneImages => ("Prune images?"@, "Every dangling image will be deleted."@),
        JobView::PruneVolumes => ("Prune volumes?"@, "Every volume not used by a container will be deleted, along with its data."@),
        JobView::PruneNetworks => ("Prune networks?"@, "Every network not used by a container will be deleted."@),
        _ => ("Are you sure?"@, description_of(job)),
    }
}

impl Job {
    /// The id this job is in flight against, so the table can show a spinner on
    /// the right row.
    pub fn target_id(&self) -> (out: Option<&str>)
        ensures
            out.deep_view() == target_of(self.deep_view()),
    {
        match self {
            Job::Start { id, .. } => Some(id.as_str()),
            Job::Stop { id, .. } => Some(id.as_str()),
            Job::Restart { id, .. } => Some(id.as_str()),
            Job::Pause { id, .. } => Some(id.as_str()),
            Job::Unpause { id, .. } => Some(id.as_str()),
            Job::Kill { id, .. } => Some(id.as_str()),
            Job::RemoveContainer { id, .. } => Some(id.as_str()),
            Job::RemoveImage { id, .. } => Some(id.as_str()),
            Job::RemoveVolume { name, .. } => Some(name.as_str()),
            Job::RemoveNetwork { id, .. } => Some(id.as_str()),
            _ => None,
        }
    }

    /// One present-tense word, shown in the row's state column while the job is
    /// in flight. The full description doesn't fit there and truncates to
    /// something unreadable like `stopping do…`.
    pub fn verb(&self) -> (out: &'static str)
        ensures
            out@ == verb_of(self.deep_view()),
    {
        match self {
            Job::Start { .. } => "starting",
            Job::Stop { .. } => "stopping",
            Job::Restart { .. } => "restarting",
            Job::Pause { .. } => "pausing",
            Job::Unpause { .. } => "resuming",
            Job::Kill { .. } => "killing",
            Job::RemoveContainer { .. } => "removing",
            Job::RemoveImage { .. } => "removing",
            Job::RemoveVolume { .. } => "removing",
            Job::RemoveNetwork { .. } => "removing",
            Job::PruneContainers => "pruning",
            Job::PruneImages => "pruning",
            Job::PruneVolumes => "pruning",
            Job::PruneNetworks => "pruning",
        }
    }

    /// Present-tense description, shown in toasts and the pending list.
    pub fn describe(&self) -> (out: String)
        ensures
            out@ == description_of(self.deep_view()),
    {
        match self {
            Job::Start { name, .. } => cat2("starting ", name),
            Job::Stop { name, .. } => cat2("stopping ", name),
            Job::Restart { name, .. } => cat2("restarting ", name),
            Job::Pause { name, .. } => cat2("pausing ", name),
            Job::Unpause { name, .. } => cat2("resuming ", name),
            Job::Kill { name, .. } => cat2("killing ", name),
            Job::RemoveContainer { name, .. } => cat2("removing container ", name),
            Job::RemoveImage { name, .. } => cat2("removing image ", name),
            Job::RemoveVolume { name, .. } => cat2("removing volume ", name),
            Job::RemoveNetwork { name, .. } => cat2("removing network ", name),
            Job::PruneContainers => owned("pruning stopped containers"),
            Job::PruneImages => owned("pruning dangling images"),
            Job::PruneVolumes => owned("pruning unused volumes"),
            Job::PruneNetworks => owned("pruning unused networks"),
        }
    }

    /// Past-tense confirmation, shown in the success toast.
    pub fn done_message(&self) -> (out: String)
        ensures
            out@ == done_text(self.deep_view()),
    {
        match self {
            Job::Start { name, .. } => cat2("started ", name),
            Job::Stop { name, .. } => cat2("stopped ", name),
            Job::Restart { name, .. } => cat2("restarted ", name),
            Job::Pause { name, .. } => cat2("paused ", name),
            Job::Unpause { name, .. } => cat2("resumed ", name),
            Job::Kill { name, .. } => cat2("killed ", name),
            Job::RemoveContainer { name, .. } => cat2("removed container ", name),
            Job::RemoveImage { name, .. } => cat2("removed image ", name),
            Job::RemoveVolume { name, .. } => cat2("removed volume ", name),
            Job::RemoveNetwork { name, .. } => cat2("removed network ", name),
            _ => owned("done"),
        }
    }

    /// Destructive jobs get a confirmation dialog first.
    pub fn needs_confirmation(&self) -> (out: bool)
        ensures
            out == destructive(self.deep_view()),
    {
        match self {
            Job::Start { .. } | Job::Stop { .. } | Job::Restart { .. } | Job::Pause { .. } | Job::Unpause { .. } => false,
            _ => true,
        }
    }

    /// The question the confirm dialog asks.
    pub fn confirm_prompt(&self) -> (out: (String, String))
        ensures
            (out.0@, out.1@) == prompt_of(self.deep_view()),
    {
        match self {
            Job::Kill { name, .. } => (owned("Kill container?"), cat2(name, " will be sent SIGKILL and stopped immediately.")),
            Job::RemoveContainer { name, .. } => (owned("Remove container?"), cat2(name, " will be deleted. Anonymous volumes are kept.")),
            Job::RemoveImage { name, .. } => (owned("Remove image?"), cat2(name, " will be deleted.")),
            Job::RemoveVolume { name, .. } => (owned("Remove volume?"), cat2(name, " and everything stored in it will be deleted.")),
            Job::RemoveNetwork { name, .. } => (owned("Remove network?"), cat2(name, " will be deleted.")),
            Job::PruneContainers => (owned("Prune containers?"), owned("Every stopped container will be deleted.")),
            Job::PruneImages => (owned("Prune images?"), owned("Every dangling image will be deleted.")),
            Job::PruneVolumes => (owned("Prune volumes?"), owned("Every volume not used by a container will be deleted, along with its data.")),
            Job::PruneNetworks => (owned("Prune networks?"), owned("Every network not used by a container will be deleted.")),
            _ => (owned("Are you sure?"), self.describe()),
        }
    }
}

// ---------------------------------------------------------------------------
// Asking, and reporting back
// ---------------------------------------------------------------------------

/// What to ask of the daemon.
#[derive(Debug, Clone, PartialEq, Eq)]
pub enum Request {
    StartContainer { id: String },
    StopContainer { id: String },
    RestartContainer { id: String },
    PauseContainer { id: String },
    UnpauseContainer { id: String },
    KillContainer { id: String, signal: &'static str },
    RemoveContainer { id: String, force: bool },
    RemoveImage { id: String, force: bool },
    RemoveVolume { name: String, force: bool },
    RemoveNetwork { id: String },
    PruneContainers,
    PruneImages,
    PruneVolumes,
    PruneNetworks,
}

/// The mathematical value of a [`Request`].
#[verifier::ext_equal]
pub enum RequestView {
    StartContainer { id: Seq<char> },
    StopContainer { id: Seq<char> },
    RestartContainer { id: Seq<char> },
    PauseContainer { id: Seq<char> },
    UnpauseContainer { id: Seq<char> },
    KillContainer { id: Seq<char>, signal: Seq<char> },
    RemoveContainer { id: Seq<char>, force: bool },
    RemoveImage { id: Seq<char>, force: bool },
    RemoveVolume { name: Seq<char>, force: bool },
    RemoveNetwork { id: Seq<char> },
    PruneContainers,
    PruneImages,
    PruneVolumes,
    PruneNetworks,
}

impl DeepView for Request {
    type V = RequestView;

    open spec fn deep_view(&self) -> RequestView {
        match self {
            Request::StartContainer { id } => RequestView::StartContainer { id: id@ },
            Request::StopContainer { id } => RequestView::StopContainer { id: id@ },
            Request::RestartContainer { id } => RequestView::RestartContainer { id: id@ },
            Request::PauseContainer { id } => RequestView::PauseContainer { id: id@ },
            Request::UnpauseContainer { id } => RequestView::UnpauseContainer { id: id@ },
            Request::KillContainer { id, signal } => RequestView::KillContainer {
                id: id@,
                signal: signal@,
            },
            Request::RemoveContainer { id, force } => RequestView::RemoveContainer {
                id: id@,
                force: *force,
            },
            Request::RemoveImage { id, force } => RequestView::RemoveImage {
                id: id@,
                force: *force,
            },
            Request::RemoveVolume { name, force } => RequestView::RemoveVolume {
                name: name@,
                force: *force,
            },
            Request::RemoveNetwork { id } => RequestView::RemoveNetwork { id: id@ },
            Request::PruneContainers => RequestView::PruneContainers,
            Request::PruneImages => RequestView::PruneImages,
            Request::PruneVolumes => RequestView::PruneVolumes,
            Request::PruneNetworks => RequestView::PruneNetworks,
        }
    }
}

/// What a job asks of the daemon.
pub open spec fn request_of(job: JobView) -> RequestView {
    match job {
        JobView::Start { id, .. } => RequestView::StartContainer { id },
        JobView::Stop { id, .. } => RequestView::StopContainer { id },
        JobView::Restart { id, .. } => RequestView::RestartContainer { id },
        JobView::Pause { id, .. } => RequestView::PauseContainer { id },
        JobView::Unpause { id, .. } => RequestView::UnpauseContainer { id },
        JobView::Kill { id, .. } => RequestView::KillContainer { id, signal: "SIGKILL"@ },
        JobView::RemoveContainer { id, force, .. } => RequestView::RemoveContainer { id, force },
        JobView::RemoveImage { id, force, .. } => RequestView::RemoveImage { id, force },
        JobView::RemoveVolume { name, force } => RequestView::RemoveVolume { name, force },
        JobView::RemoveNetwork { id, .. } => RequestView::RemoveNetwork { id },
        JobView::PruneContainers => RequestView::PruneContainers,
        JobView::PruneImages => RequestView::PruneImages,
        JobView::PruneVolumes => RequestView::PruneVolumes,
        JobView::PruneNetworks => RequestView::PruneNetworks,
    }
}

/// What the daemon says when it has done as asked: a prune says how much it
/// deleted and reclaimed, the rest say nothing.
#[derive(Debug, Clone, Copy)]
pub struct Reply {
    pub deleted: Option<usize>,
    pub space_reclaimed: Option<i64>,
}

/// The plural ending for `n` of something.
pub open spec fn plural_text(n: nat) -> Seq<char> {
    if n == 1 {
        ""@
    } else {
        "s"@
    }
}

/// The plural ending for `n` of something.
pub fn plural(n: usize) -> (out: &'static str)
    ensures
        out@ == plural_text(n as nat),
{
    if n == 1 {
        ""
    } else {
        "s"
    }
}

/// `pruned 3 containers`.
pub open spec fn pruned_text(what: Seq<char>, reply: Reply) -> Seq<char> {
    let n = match reply.deleted {
        Some(n) => n as nat,
        None => 0,
    };
    "pruned "@ + dec(n) + what + plural_text(n)
}

/// `pruned 3 containers (1.20GB reclaimed)`.
pub open spec fn reclaimed_text(what: Seq<char>, reply: Reply) -> Seq<char> {
    let space = match reply.space_reclaimed {
        Some(n) => if n > 0 {
            n as nat
        } else {
            0
        },
        None => 0,
    };
    pruned_text(what, reply) + " ("@ + bytes_text(space) + " reclaimed)"@
}

/// What to tell the user when a job succeeded.
pub open spec fn success_text(job: JobView, reply: Reply) -> Seq<char> {
    match job {
        JobView::PruneContainers => reclaimed_text(" container"@, reply),
        JobView::PruneImages => reclaimed_text(" image"@, reply),
        JobView::PruneVolumes => reclaimed_text(" volume"@, reply),
        JobView::PruneNetworks => pruned_text(" network"@, reply),
        _ => done_text(job),
    }
}

fn pruned(what: &str, reply: &Reply) -> (out: String)
    ensures
        out@ == pruned_text(what@, *reply),
{
    let n: usize = match reply.deleted {
        Some(n) => n,
        None => 0,
    };
    let mut out = cat3("pruned ", &decimal(n as u64), what);
    out = cat2(&out, plural(n));
    out
}

fn reclaimed(what: &str, reply: &Reply) -> (out: String)
    ensures
        out@ == reclaimed_text(what@, *reply),
{
    let space: u64 = match reply.space_reclaimed {
        Some(n) => if n > 0 {
            n as u64
        } else {
            0
        },
        None => 0,
    };
    let mut out = cat3(&pruned(what, reply), " (", &bytes(space));
    out = cat2(&out, " reclaimed)");
    out
}

impl Job {
    /// What to ask of the daemon for this job.
    pub fn request(&self) -> (out: Request)
        ensures
            out.deep_view() == request_of(self.deep_view()),
    {
        match self {
            Job::Start { id, .. } => Request::StartContainer { id: owned(id) },
            Job::Stop { id, .. } => Request::StopContainer { id: owned(id) },
            Job::Restart { id, .. } => Request::RestartContainer { id: owned(id) },
            Job::Pause { id, .. } => Request::PauseContainer { id: owned(id) },
            Job::Unpause { id, .. } => Request::UnpauseContainer { id: owned(id) },
            Job::Kill { id, .. } => Request::KillContainer { id: owned(id), signal: "SIGKILL" },
            Job::RemoveContainer { id, force, .. } => Request::RemoveContainer {
                id: owned(id),
                force: *force,
            },
            Job::RemoveImage { id, force, .. } => Request::RemoveImage {
                id: owned(id),
                force: *force,
            },
            Job::RemoveVolume { name, force } => Request::RemoveVolume {
                name: owned(name),
                force: *force,
            },
            Job::RemoveNetwork { id, .. } => Request::RemoveNetwork { id: owned(id) },
            Job::PruneContainers => Request::PruneContainers,
            Job::PruneImages => Request::PruneImages,
            Job::PruneVolumes => Request::PruneVolumes,
            Job::PruneNetworks => Request::PruneNetworks,
        }
    }

    /// What to tell the user about the daemon's answer.
    pub fn outcome(&self, answer: &Result<Reply, ApiError>) -> (out: Result<String, String>)
        ensures
            match (*answer, out) {
                (Ok(reply), Ok(msg)) => msg@ == success_text(self.deep_view(), reply),
                (Err(e), Err(msg)) => msg@ == friendly(e.deep_view()),
                _ => false,
            },
    {
        match answer {
            Err(e) => Err(friendly_error(e)),
            Ok(reply) => Ok(
                match self {
                    Job::PruneContainers => reclaimed(" container", reply),
                    Job::PruneImages => reclaimed(" image", reply),
                    Job::PruneVolumes => reclaimed(" volume", reply),
                    Job::PruneNetworks => pruned(" network", reply),
                    _ => self.done_message(),
                },
            ),
        }
    }
}

// ---------------------------------------------------------------------------
// What jobs promise
// ---------------------------------------------------------------------------

/// Whatever deletes or kills is asked about first; whatever can be undone is
/// not.
pub proof fn deleting_is_asked_about(job: JobView)
    ensures
        destructive(job) <==> !(request_of(job) is StartContainer || request_of(job)
            is StopContainer || request_of(job) is RestartContainer || request_of(job)
            is PauseContainer || request_of(job) is UnpauseContainer),
{
}

/// A job is noted under the very id it asks the daemon about, and only the
/// prunes have none.
pub proof fn targets_are_what_is_asked_about(job: JobView)
    ensures
        target_of(job) is None <==> (request_of(job) is PruneContainers || request_of(job)
            is PruneImages || request_of(job) is PruneVolumes || request_of(job) is PruneNetworks),
        match request_of(job) {
            RequestView::StartContainer { id } => target_of(job) == Some(id),
            RequestView::StopContainer { id } => target_of(job) == Some(id),
            RequestView::RestartContainer { id } => target_of(job) == Some(id),
            RequestView::PauseContainer { id } => target_of(job) == Some(id),
            RequestView::UnpauseContainer { id } => target_of(job) == Some(id),
            RequestView::KillContainer { id, .. } => target_of(job) == Some(id),
            RequestView::RemoveContainer { id, .. } => target_of(job) == Some(id),
            RequestView::RemoveImage { id, .. } => target_of(job) == Some(id),
            RequestView::RemoveVolume { name, .. } => target_of(job) == Some(name),
            RequestView::RemoveNetwork { id } => target_of(job) == Some(id),
            _ => true,
        },
{
}

/// Each kind of job asks the daemon for its own kind of request, and no two kinds share
/// one; and the request is about what the job is about.
pub proof fn each_job_asks_for_its_own_request(job: JobView)
    ensures
        job is Start <==> request_of(job) is StartContainer,
        job is Stop <==> request_of(job) is StopContainer,
        job is Restart <==> request_of(job) is RestartContainer,
        job is Pause <==> request_of(job) is PauseContainer,
        job is Unpause <==> request_of(job) is UnpauseContainer,
        job is Kill <==> request_of(job) is KillContainer,
        job is RemoveContainer <==> request_of(job) is RemoveContainer,
        job is RemoveImage <==> request_of(job) is RemoveImage,
        job is RemoveVolume <==> request_of(job) is RemoveVolume,
        job is RemoveNetwork <==> request_of(job) is RemoveNetwork,
        job is PruneContainers <==> request_of(job) is PruneContainers,
        job is PruneImages <==> request_of(job) is PruneImages,
        job is PruneVolumes <==> request_of(job) is PruneVolumes,
        job is PruneNetworks <==> request_of(job) is PruneNetworks,
        request_of(job) matches RequestView::KillContainer { signal, .. } ==> signal
            == "SIGKILL"@,
        request_of(job) matches RequestView::StartContainer { id } ==> job->Start_id == id,
        request_of(job) matches RequestView::StopContainer { id } ==> job->Stop_id == id,
        request_of(job) matches RequestView::RestartContainer { id } ==> job->Restart_id == id,
        request_of(job) matches RequestView::PauseContainer { id } ==> job->Pause_id == id,
        request_of(job) matches RequestView::UnpauseContainer { id } ==> job->Unpause_id == id,
        request_of(job) matches RequestView::KillContainer { id, .. } ==> job->Kill_id == id,
        request_of(job) matches RequestView::RemoveContainer { id, force } ==> job matches
            JobView::RemoveContainer { id: i, force: f, .. } && i == id && f == force,
        request_of(job) matches RequestView::RemoveImage { id, force } ==> job matches
            JobView::RemoveImage { id: i, force: f, .. } && i == id && f == force,
        request_of(job) matches RequestView::RemoveVolume { name, force } ==> job matches
            JobView::RemoveVolume { name: n, force: f } && n == name && f == force,
        request_of(job) matches RequestView::RemoveNetwork { id } ==> job->RemoveNetwork_id == id,
{
}

/// What is said of a job once it is done is a past tense of its own, with the name of
/// what it was done to; so two jobs of different kinds on the same thing are told
/// apart, before and after.
pub proof fn jobs_are_told_apart(a: JobView, b: JobView, name: Seq<char>)
    requires
        acts_on(a, name),
        acts_on(b, name),
        done_text(a) == done_text(b) || description_of(a) == description_of(b),
    ensures
        a is Start <==> b is Start,
        a is Stop <==> b is Stop,
        a is Restart <==> b is Restart,
        a is Pause <==> b is Pause,
        a is Kill <==> b is Kill,
        a is RemoveContainer <==> b is RemoveContainer,
        a is RemoveImage <==> b is RemoveImage,
        a is RemoveVolume <==> b is RemoveVolume,
        a is RemoveNetwork <==> b is RemoveNetwork,
{
    reveal_strlit("starting ");
    reveal_strlit("stopping ");
    reveal_strlit("restarting ");
    reveal_strlit("pausing ");
    reveal_strlit("resuming ");
    reveal_strlit("killing ");
    reveal_strlit("removing container ");
    reveal_strlit("removing image ");
    reveal_strlit("removing volume ");
    reveal_strlit("removing network ");
    reveal_strlit("started ");
    reveal_strlit("stopped ");
    reveal_strlit("restarted ");
    reveal_strlit("paused ");
    reveal_strlit("resumed ");
    reveal_strlit("killed ");
    reveal_strlit("removed container ");
    reveal_strlit("removed image ");
    reveal_strlit("removed volume ");
    reveal_strlit("removed network ");
    let (x, y) = (done_text(a), done_text(b));
    let (p, q) = (description_of(a), description_of(b));
    assert(x == y ==> x.len() == y.len() && x[0] == y[0] && x[1] == y[1] && x[2] == y[2] && x[8]
        == y[8]);
    assert(p == q ==> p.len() == q.len() && p[0] == q[0] && p[1] == q[1] && p[2] == q[2] && p[9]
        == q[9]);
}

/// Whether a job is done to one thing, of that name.
pub open spec fn acts_on(job: JobView, name: Seq<char>) -> bool {
    match job {
        JobView::Start { name: n, .. } => n == name,
        JobView::Stop { name: n, .. } => n == name,
        JobView::Restart { name: n, .. } => n == name,
        JobView::Pause { name: n, .. } => n == name,
        JobView::Unpause { name: n, .. } => n == name,
        JobView::Kill { name: n, .. } => n == name,
        JobView::RemoveContainer { name: n, .. } => n == name,
        JobView::RemoveImage { name: n, .. } => n == name,
        JobView::RemoveVolume { name: n, .. } => n == name,
        JobView::RemoveNetwork { name: n, .. } => n == name,
        _ => false,
    }
}

/// Whether a text ends in another.
pub open spec fn ends_in(text: Seq<char>, end: Seq<char>) -> bool {
    end.len() <= text.len() && text.skip(text.len() - end.len()) == end
}

proof fn sums_end_in_their_last(front: Seq<char>, end: Seq<char>)
    ensures
        ends_in(front + end, end),
{
    assert((front + end).skip((front + end).len() - end.len()) =~= end);
}

/// What is said of a job under way and of one that is done ends in the name of what it
/// acts on, and so does the question about one begin.
pub proof fn jobs_name_what_they_act_on(job: JobView, name: Seq<char>)
    requires
        acts_on(job, name),
    ensures
        ends_in(description_of(job), name),
        ends_in(done_text(job), name),
        destructive(job) ==> prompt_of(job).1.take(name.len() as int) == name
            && prompt_of(job).1.len() >= name.len(),
{
    assert forall|front: Seq<char>| ends_in(#[trigger] (front + name), name) by {
        sums_end_in_their_last(front, name);
    }
    assert forall|back: Seq<char>| (#[trigger] (name + back)).take(name.len() as int) == name by {
        assert((name + back).take(name.len() as int) =~= name);
    }
}

/// The word for a job under way is the first of what is said of it.
pub proof fn jobs_go_by_their_verb(job: JobView)
    ensures
        verb_of(job).len() < description_of(job).len(),
        description_of(job).take(verb_of(job).len() as int) == verb_of(job),
        job is Start <==> verb_of(job) == "starting"@,
        job is Stop <==> verb_of(job) == "stopping"@,
        job is Restart <==> verb_of(job) == "restarting"@,
        job is Pause <==> verb_of(job) == "pausing"@,
        job is Unpause <==> verb_of(job) == "resuming"@,
        job is Kill <==> verb_of(job) == "killing"@,
{
    reveal_strlit("starting");
    reveal_strlit("stopping");
    reveal_strlit("restarting");
    reveal_strlit("pausing");
    reveal_strlit("resuming");
    reveal_strlit("killing");
    reveal_strlit("removing");
    reveal_strlit("pruning");
    reveal_strlit("starting ");
    reveal_strlit("stopping ");
    reveal_strlit("restarting ");
    reveal_strlit("pausing ");
    reveal_strlit("resuming ");
    reveal_strlit("killing ");
    reveal_strlit("removing container ");
    reveal_strlit("removing image ");
    reveal_strlit("removing volume ");
    reveal_strlit("removing network ");
    reveal_strlit("pruning stopped containers");
    reveal_strlit("pruning dangling images");
    reveal_strlit("pruning unused volumes");
    reveal_strlit("pruning unused networks");
    assert("starting"@[2] == 'a' && "stopping"@[2] == 'o' && "starting"@[0] == 's');
    assert("removing"@[2] == 'm' && "resuming"@[2] == 's' && "stopping"@[0] == 's');
    assert("pausing"@[1] == 'a' && "pruning"@[1] == 'r' && "killing"@[1] == 'i');
    assert("resuming"@[0] == 'r' && "removing"@[0] == 'r');
    assert("restarting"@.len() == 10 && "starting"@.len() == 8 && "pausing"@.len() == 7);
    let verb = verb_of(job);
    assert(description_of(job).take(verb.len() as int) =~= verb);
}

} // verus!
