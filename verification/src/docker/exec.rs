//! Interactive shell sessions.
//!
//! A session hands the real terminal over to a process inside the container and
//! takes it back afterwards. Two details make or break it:
//!
//! * The stdin reader must be *interruptible*: a reader parked in `read(2)` when
//!   the session ends would eat the user's next keystroke. So it polls with a
//!   timeout and checks whether the session is over between polls.
//! * Window resizes have to be forwarded, or anything full-screen run inside
//!   the container (an editor, `top`) draws at the wrong size.
//!
//! What to ask for, and what to make of each answer, is decided here.

use vstd::prelude::*;

use crate::app::ToastKind;
use crate::docker::logs::FrameKind;
use crate::docker::{friendly, friendly_error, ApiError};
use crate::text::{cat2, cat4, dec, decimal, owned, put};

verus! {

broadcast use vstd::string::group_string_axioms;

/// Try progressively nicer shells and settle for whatever exists. Running this
/// through `sh -c` means one exec attempt covers Alpine, Debian and distroless
/// images that happen to ship busybox.
pub const SHELL_PROBE: &'static str = "exec $(command -v bash || command -v ash || command -v sh)";

/// Result of a session, for the toast shown afterwards.
#[derive(Debug, PartialEq, Eq)]
pub enum Outcome {
    /// The shell ran and exited with this status.
    Exited(i64),
    /// The exec could not be created — no shell in the image, usually.
    Failed(String),
}

/// The mathematical value of an [`Outcome`].
#[verifier::ext_equal]
pub enum OutcomeView {
    Exited(i64),
    Failed(Seq<char>),
}

impl DeepView for Outcome {
    type V = OutcomeView;

    open spec fn deep_view(&self) -> OutcomeView {
        match self {
            Outcome::Exited(code) => OutcomeView::Exited(*code),
            Outcome::Failed(msg) => OutcomeView::Failed(msg@),
        }
    }
}

/// What to run in the container: a terminal on both ends, and the nicest shell
/// there is.
pub struct SessionRequest {
    pub tty: bool,
    pub cmd: Vec<String>,
    pub env: Vec<String>,
}

/// What to run in the container.
pub fn session_request() -> (out: SessionRequest)
    ensures
        out.tty,
        out.cmd.deep_view() == seq!["/bin/sh"@, "-c"@, SHELL_PROBE@],
        out.env.deep_view() == seq!["TERM=xterm-256color"@],
{
    let mut cmd: Vec<String> = Vec::new();
    put(&mut cmd, owned("/bin/sh"));
    put(&mut cmd, owned("-c"));
    put(&mut cmd, owned(SHELL_PROBE));
    let mut env: Vec<String> = Vec::new();
    put(&mut env, owned("TERM=xterm-256color"));
    assert(cmd.deep_view() =~= seq!["/bin/sh"@, "-c"@, SHELL_PROBE@]);
    assert(env.deep_view() =~= seq!["TERM=xterm-256color"@]);
    SessionRequest { tty: true, cmd, env }
}

/// What became of a request to create or start a session.
#[derive(Debug)]
pub enum Attached {
    /// Both ends are connected.
    Yes,
    /// The daemon started it without us.
    Detached,
    /// It was refused.
    Refused(ApiError),
}

/// How the session is over before it began, if it is.
pub fn attach_outcome(answer: &Attached) -> (out: Option<Outcome>)
    ensures
        out.deep_view() == (match *answer {
            Attached::Yes => None::<OutcomeView>,
            Attached::Detached => Some(OutcomeView::Failed("docker detached the exec session"@)),
            Attached::Refused(e) => Some(OutcomeView::Failed(friendly(e.deep_view()))),
        }),
{
    match answer {
        Attached::Yes => None,
        Attached::Detached => Some(Outcome::Failed(owned("docker detached the exec session"))),
        Attached::Refused(e) => Some(Outcome::Failed(friendly_error(e))),
    }
}

/// The status of a shell that ran. The daemon may no longer know it; that
/// counts as success.
pub fn exit_outcome(exit_code: Option<i64>) -> (out: Outcome)
    ensures
        out.deep_view() == OutcomeView::Exited(
            match exit_code {
                Some(code) => code,
                None => 0,
            },
        ),
{
    Outcome::Exited(
        match exit_code {
            Some(code) => code,
            None => 0,
        },
    )
}

/// What happens during a session.
#[derive(Debug, Clone, Copy, PartialEq, Eq, Structural)]
pub enum SessionEvent {
    /// Bytes from the container. With a terminal Docker sends raw output as
    /// console frames rather than multiplexed streams.
    Output(FrameKind),
    /// The container's end closed or failed: the shell exited.
    OutputClosed,
    /// Keystrokes.
    Keys,
    /// There will be no more keystrokes.
    KeysClosed,
    /// The container would not take a keystroke.
    InputFailed,
}

/// What to do about it.
#[derive(Debug, Clone, Copy, PartialEq, Eq, Structural)]
pub enum SessionAction {
    /// Write the bytes to the terminal.
    ToTerminal,
    /// Write the bytes to the container.
    ToContainer,
    /// Nothing.
    Ignore,
    /// The session is over.
    Finish,
}

/// What to do about something that happened during a session.
pub open spec fn answer_to(ev: SessionEvent) -> SessionAction {
    match ev {
        SessionEvent::Output(kind) => if kind == FrameKind::StdIn {
            SessionAction::Ignore
        } else {
            SessionAction::ToTerminal
        },
        SessionEvent::Keys => SessionAction::ToContainer,
        SessionEvent::OutputClosed | SessionEvent::KeysClosed
        | SessionEvent::InputFailed => SessionAction::Finish,
    }
}

/// What to do about something that happened during a session.
pub fn on_session_event(ev: SessionEvent) -> (out: SessionAction)
    ensures
        out == answer_to(ev),
{
    match ev {
        SessionEvent::Output(FrameKind::StdIn) => SessionAction::Ignore,
        SessionEvent::Output(_) => SessionAction::ToTerminal,
        SessionEvent::Keys => SessionAction::ToContainer,
        SessionEvent::OutputClosed | SessionEvent::KeysClosed
        | SessionEvent::InputFailed => SessionAction::Finish,
    }
}

/// What the stdin reader does next.
#[derive(Debug, Clone, Copy, PartialEq, Eq, Structural)]
pub enum ReaderStep {
    /// Look at the session again, and wait again.
    Again,
    /// There is something to read.
    Read,
    /// Hand on this many bytes.
    Deliver(usize),
    /// Stop reading.
    Stop,
}

/// What follows a wait for input.
pub open spec fn step_after_wait(ready: i32, interrupted: bool) -> ReaderStep {
    if ready < 0 {
        if interrupted {
            ReaderStep::Again
        } else {
            ReaderStep::Stop
        }
    } else if ready == 0 {
        ReaderStep::Again
    } else {
        ReaderStep::Read
    }
}

/// After waiting for input: how many descriptors are ready, negative for an
/// error, and whether that error was an interruption.
pub fn after_wait(ready: i32, interrupted: bool) -> (out: ReaderStep)
    ensures
        out == step_after_wait(ready, interrupted),
{
    if ready < 0 {
        if interrupted {
            ReaderStep::Again
        } else {
            ReaderStep::Stop
        }
    } else if ready == 0 {
        ReaderStep::Again
    } else {
        ReaderStep::Read
    }
}

/// What follows a read.
pub open spec fn step_after_read(count: Option<usize>, interrupted: bool) -> ReaderStep {
    match count {
        Some(n) => if n == 0 {
            ReaderStep::Stop
        } else {
            ReaderStep::Deliver(n)
        },
        None => if interrupted {
            ReaderStep::Again
        } else {
            ReaderStep::Stop
        },
    }
}

/// After reading: how many bytes came, `None` for an error, and whether that
/// error was an interruption.
pub fn after_read(count: Option<usize>, interrupted: bool) -> (out: ReaderStep)
    ensures
        out == step_after_read(count, interrupted),
{
    match count {
        Some(n) => if n == 0 {
            ReaderStep::Stop
        } else {
            ReaderStep::Deliver(n)
        },
        None => if interrupted {
            ReaderStep::Again
        } else {
            ReaderStep::Stop
        },
    }
}

/// A signed number in decimal.
pub open spec fn signed(n: int) -> Seq<char> {
    if n < 0 {
        "-"@ + dec((-n) as nat)
    } else {
        dec(n as nat)
    }
}

/// A signed number in decimal.
pub fn signed_decimal(n: i64) -> (out: String)
    ensures
        out@ == signed(n as int),
{
    if n < 0 {
        let magnitude: u64 = (-(n as i128)) as u64;
        cat2("-", &decimal(magnitude))
    } else {
        decimal(n as u64)
    }
}

/// What to tell the user about a session in the container `name`, if anything:
/// a shell that ended well needs no comment.
pub open spec fn session_toast(
    name: Seq<char>,
    result: Result<OutcomeView, Seq<char>>,
) -> Option<(ToastKind, Seq<char>)> {
    match result {
        Ok(OutcomeView::Exited(code)) => if code == 0 {
            None
        } else {
            Some(
                (
                    ToastKind::Info,
                    "shell in "@ + name + " exited with status "@ + signed(code as int),
                ),
            )
        },
        Ok(OutcomeView::Failed(msg)) => Some(
            (ToastKind::Error, "could not open a shell: "@ + msg),
        ),
        Err(e) => Some((ToastKind::Error, "exec failed: "@ + e)),
    }
}

/// What to tell the user about a session in the container `name`, if anything.
pub fn toast_for(name: &str, result: &Result<Outcome, String>) -> (out: Option<(ToastKind, String)>)
    ensures
        match out {
            Some(t) => session_toast(
                name@,
                match *result {
                    Ok(o) => Ok(o.deep_view()),
                    Err(e) => Err(e@),
                },
            ) == Some((t.0, t.1@)),
            None => session_toast(
                name@,
                match *result {
                    Ok(o) => Ok(o.deep_view()),
                    Err(e) => Err(e@),
                },
            ) is None,
        },
{
    match result {
        Ok(Outcome::Exited(code)) => if *code == 0 {
            None
        } else {
            Some(
                (
                    ToastKind::Info,
                    cat4("shell in ", name, " exited with status ", &signed_decimal(*code)),
                ),
            )
        },
        Ok(Outcome::Failed(msg)) => Some((ToastKind::Error, cat2("could not open a shell: ", msg))),
        Err(e) => Some((ToastKind::Error, cat2("exec failed: ", e))),
    }
}

/// What is typed goes to the container and what it writes to the terminal, never the
/// other way; the session is over once either end has nothing more to say.
pub proof fn sessions_carry_both_ways(ev: SessionEvent)
    ensures
        answer_to(ev) == SessionAction::ToContainer <==> ev is Keys,
        answer_to(ev) == SessionAction::ToTerminal <==> ev == SessionEvent::Output(
            FrameKind::StdOut,
        ) || ev == SessionEvent::Output(FrameKind::StdErr) || ev == SessionEvent::Output(
            FrameKind::Console,
        ),
        answer_to(ev) == SessionAction::Finish <==> ev is OutputClosed || ev is KeysClosed || ev
            is InputFailed,
{
}

/// Every byte that was read is handed on. Reading stops at the end of the input and at an
/// error, but not at an interruption nor for want of input.
pub proof fn reading_goes_on(ready: i32, count: usize, interrupted: bool)
    ensures
        count > 0 ==> step_after_read(Some(count), interrupted) == ReaderStep::Deliver(count),
        step_after_read(Some(0), interrupted) == ReaderStep::Stop,
        step_after_read(None, interrupted) == ReaderStep::Stop <==> !interrupted,
        step_after_wait(ready, interrupted) == ReaderStep::Read <==> ready > 0,
        step_after_wait(ready, interrupted) == ReaderStep::Stop <==> ready < 0 && !interrupted,
{
}

} // verus!
