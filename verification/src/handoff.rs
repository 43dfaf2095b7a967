//! Handing an owned string to a background task and getting it back.
//!
//! The party that starts the task follows a fixed sequence: start the task,
//! block until its message arrives, block until the task has finished, and
//! only then hand the message on. This module decides each step; whoever
//! drives it performs the blocking work and reports what happened.

use vstd::prelude::*;

verus! {

/// How long the task waits before it sends its message, in milliseconds.
pub const TASK_DELAY_MILLIS: u64 = 200;

/// The text that is moved into the task.
pub open spec fn payload_text() -> Seq<char> {
    "moved into thread safely"@
}

/// Why a handoff was given up.
#[derive(Clone, Copy, Debug, PartialEq, Eq, Structural)]
pub enum HandoffError {
    /// The task went away without sending its message.
    Disconnected,
    /// The task sent its message but then ended abnormally.
    TaskFailed,
    /// An event was reported that the current step did not wait for.
    OutOfOrder,
}

impl HandoffError {
    /// The text of [`HandoffError::message`].
    pub open spec fn message_text(self) -> Seq<char> {
        match self {
            HandoffError::Disconnected => "task disconnected before sending"@,
            HandoffError::TaskFailed => "task ended abnormally"@,
            HandoffError::OutOfOrder => "event out of order"@,
        }
    }

    /// A short description of the failure.
    pub fn message(self) -> (text: String)
        ensures
            text@ == self.message_text(),
    {
        match self {
            HandoffError::Disconnected => String::from_str("task disconnected before sending"),
            HandoffError::TaskFailed => String::from_str("task ended abnormally"),
            HandoffError::OutOfOrder => String::from_str("event out of order"),
        }
    }
}

/// What the driver has to do next.
#[derive(Debug, PartialEq, Eq)]
pub enum Action {
    /// Start a task that takes ownership of `payload`, waits `delay_millis`
    /// and then sends `payload` back.
    Spawn { payload: String, delay_millis: u64 },
    /// Block until the task's message arrives.
    Receive,
    /// Block until the task has finished.
    Join,
    /// The handoff is complete: this is the string to hand on.
    Finish(String),
    /// The handoff is given up.
    Fail(HandoffError),
}

/// What the driver observed while carrying out the last action.
#[derive(Debug, PartialEq, Eq)]
pub enum Event {
    /// The task was started and owns the payload now.
    Spawned,
    /// The task's message arrived.
    Received(String),
    /// The task's end of the channel closed before any message arrived.
    Disconnected,
    /// The task finished normally.
    Joined,
    /// The task ended abnormally.
    TaskPanicked,
}

/// Where the starting party stands in the handoff.
#[derive(Debug, PartialEq, Eq)]
pub enum Handoff {
    /// The task is about to be started.
    AwaitingSpawn,
    /// The task runs; its message has not arrived yet.
    AwaitingMessage,
    /// The message arrived and is kept until the task has finished.
    AwaitingExit(String),
    /// The message was handed on.
    Finished,
    /// The handoff was given up.
    Failed,
}

impl Handoff {
    /// The step taken from `self` on `event`: the next state and the action
    /// that goes with it.
    pub open spec fn next(self, event: Event) -> (Handoff, Action) {
        match (self, event) {
            (Handoff::AwaitingSpawn, Event::Spawned) => (Handoff::AwaitingMessage, Action::Receive),
            (Handoff::AwaitingMessage, Event::Received(s)) => (
                Handoff::AwaitingExit(s),
                Action::Join,
            ),
            (Handoff::AwaitingMessage, Event::Disconnected) => (
                Handoff::Failed,
                Action::Fail(HandoffError::Disconnected),
            ),
            (Handoff::AwaitingExit(s), Event::Joined) => (Handoff::Finished, Action::Finish(s)),
            (Handoff::AwaitingExit(_), Event::TaskPanicked) => (
                Handoff::Failed,
                Action::Fail(HandoffError::TaskFailed),
            ),
            (Handoff::Finished, _) => (Handoff::Finished, Action::Fail(HandoffError::OutOfOrder)),
            _ => (Handoff::Failed, Action::Fail(HandoffError::OutOfOrder)),
        }
    }

    /// Begins a handoff: the first action starts the task and moves the
    /// payload into it.
    pub fn start() -> (r: (Handoff, Action))
        ensures
            r.0 == Handoff::AwaitingSpawn,
            r.1 matches Action::Spawn { payload, delay_millis } && payload@ == payload_text()
                && delay_millis == TASK_DELAY_MILLIS,
    {
        let payload = String::from_str("moved into thread safely");
        (Handoff::AwaitingSpawn, Action::Spawn { payload, delay_millis: TASK_DELAY_MILLIS })
    }

    /// Takes one step of the handoff.
    pub fn step(self, event: Event) -> (r: (Handoff, Action))
        ensures
            r == self.next(event),
    {
        match (self, event) {
            (Handoff::AwaitingSpawn, Event::Spawned) => (Handoff::AwaitingMessage, Action::Receive),
            (Handoff::AwaitingMessage, Event::Received(s)) => (
                Handoff::AwaitingExit(s),
                Action::Join,
            ),
            (Handoff::AwaitingMessage, Event::Disconnected) => (
                Handoff::Failed,
                Action::Fail(HandoffError::Disconnected),
            ),
            (Handoff::AwaitingExit(s), Event::Joined) => (Handoff::Finished, Action::Finish(s)),
            (Handoff::AwaitingExit(_), Event::TaskPanicked) => (
                Handoff::Failed,
                Action::Fail(HandoffError::TaskFailed),
            ),
            (Handoff::Finished, _) => (Handoff::Finished, Action::Fail(HandoffError::OutOfOrder)),
            _ => (Handoff::Failed, Action::Fail(HandoffError::OutOfOrder)),
        }
    }
}

/// A handoff in which nothing goes wrong hands on exactly the string that
/// arrived from the task.
pub proof fn lemma_clean_run_returns_message(s: String)
    ensures
        Handoff::AwaitingSpawn.next(Event::Spawned) == (Handoff::AwaitingMessage, Action::Receive),
        Handoff::AwaitingMessage.next(Event::Received(s)) == (
            Handoff::AwaitingExit(s),
            Action::Join,
        ),
        Handoff::AwaitingExit(s).next(Event::Joined) == (Handoff::Finished, Action::Finish(s)),
{
}

/// A string is handed on only when the task is joined after its message
/// arrived, and it is the string that was kept since then.
pub proof fn lemma_finish_only_after_join(state: Handoff, event: Event)
    ensures
        state.next(event).1 matches Action::Finish(s) ==> state == Handoff::AwaitingExit(s)
            && event == Event::Joined,
{
}

/// A task that goes away or ends abnormally makes the handoff fail with the
/// matching error; nothing is handed on.
pub proof fn lemma_task_failure_is_reported(s: String)
    ensures
        Handoff::AwaitingMessage.next(Event::Disconnected) == (
            Handoff::Failed,
            Action::Fail(HandoffError::Disconnected),
        ),
        Handoff::AwaitingExit(s).next(Event::TaskPanicked) == (
            Handoff::Failed,
            Action::Fail(HandoffError::TaskFailed),
        ),
{
}

/// Once a handoff has failed it stays failed.
pub proof fn lemma_failed_is_final(event: Event)
    ensures
        Handoff::Failed.next(event) == (Handoff::Failed, Action::Fail(HandoffError::OutOfOrder)),
{
}

} // verus!
