//! Everything the background tasks can tell the UI.

use vstd::prelude::*;

use crate::docker::actions::{Job, JobView};
use crate::docker::logs::{LogLine, LogLineView};
use crate::docker::model::{DaemonInfo, DaemonView};
use crate::docker::refresh::{Snapshot, SnapshotView};
use crate::docker::stats::{StatSample, StatView};

verus! {

/// Something a background task has to say.
#[derive(Debug)]
pub enum AppEvent {
    /// A fresh read of every resource list.
    Snapshot(Snapshot),
    /// One stats reading for one container.
    Stat { id: String, sample: StatSample },
    /// A log line from the stream identified by `generation`.
    LogLine { generation: u64, line: LogLine },
    /// The stream is open, but the container hasn't said anything yet. Docker
    /// has no "attached" signal of its own, so this stands in for one.
    LogAttached { generation: u64 },
    /// The log stream ended (container stopped, or `follow` finished).
    LogEnd { generation: u64 },
    /// The log stream failed.
    LogError { generation: u64, message: String },
    /// A mutation finished, successfully or not.
    JobDone { job: Job, result: Result<String, String> },
    /// Daemon banner details, fetched once at startup.
    Daemon(DaemonInfo),
    /// The daemon became unreachable.
    DaemonError(String),
    /// The daemon came back.
    DaemonOk,
}

/// The mathematical value of an [`AppEvent`].
#[verifier::ext_equal]
pub enum AppEventView {
    Snapshot(SnapshotView),
    Stat { id: Seq<char>, sample: StatView },
    LogLine { generation: u64, line: LogLineView },
    LogAttached { generation: u64 },
    LogEnd { generation: u64 },
    LogError { generation: u64, message: Seq<char> },
    JobDone { job: JobView, result: Result<Seq<char>, Seq<char>> },
    Daemon(DaemonView),
    DaemonError(Seq<char>),
    DaemonOk,
}

impl DeepView for AppEvent {
    type V = AppEventView;

    open spec fn deep_view(&self) -> AppEventView {
        match self {
            AppEvent::Snapshot(s) => AppEventView::Snapshot(s.deep_view()),
            AppEvent::Stat { id, sample } => AppEventView::Stat {
                id: id@,
                sample: sample.deep_view(),
            },
            AppEvent::LogLine { generation, line } => AppEventView::LogLine {
                generation: *generation,
                line: line.deep_view(),
            },
            AppEvent::LogAttached { generation } => AppEventView::LogAttached {
                generation: *generation,
            },
            AppEvent::LogEnd { generation } => AppEventView::LogEnd { generation: *generation },
            AppEvent::LogError { generation, message } => AppEventView::LogError {
                generation: *generation,
                message: message@,
            },
            AppEvent::JobDone { job, result } => AppEventView::JobDone {
                job: job.deep_view(),
                result: match result {
                    Ok(msg) => Ok(msg@),
                    Err(msg) => Err(msg@),
                },
            },
            AppEvent::Daemon(info) => AppEventView::Daemon(info.deep_view()),
            AppEvent::DaemonError(msg) => AppEventView::DaemonError(msg@),
            AppEvent::DaemonOk => AppEventView::DaemonOk,
        }
    }
}

} // verus!
