//! The decisions of the submission loop, as a machine of two states. The caller
//! performs each action and reports what happened as the next event.

use vstd::prelude::*;

verus! {

/// How many seconds the loop rests after drawing an empty batch.
pub const IDLE_SLEEP_SECS: u64 = 6;

/// Where the loop stands.
#[derive(Clone, Copy, Debug, PartialEq, Eq, Structural)]
pub enum DriverState {
    /// Between submissions: the next batch is about to be drawn.
    Idle,
    /// A submission is in flight.
    Submitting,
}

/// What the caller reports to the machine.
#[derive(Clone, Copy, Debug, PartialEq, Eq, Structural)]
pub enum Event {
    /// A batch of `blobs` payloads was drawn.
    BatchDrawn { blobs: usize },
    /// The submission in flight came back, accepted or not.
    SubmissionResolved { accepted: bool },
}

/// What the machine asks of the caller.
#[derive(Clone, Copy, Debug, PartialEq, Eq, Structural)]
pub enum Action {
    /// Rest for `seconds` seconds, then draw the next batch.
    Sleep { seconds: u64 },
    /// Submit the batch that was drawn.
    Submit,
    /// Draw the next batch at once.
    DrawNext,
    /// Stop the process with a failure: nothing more is submitted.
    Abort,
}

/// One move of the machine: the state it enters and the action it asks for.
#[derive(Clone, Copy, Debug, PartialEq, Eq, Structural)]
pub struct Transition {
    pub next: DriverState,
    pub action: Action,
}

/// The move that `event` causes in `state`, or `None` where the event cannot
/// occur in that state.
pub open spec fn transition(state: DriverState, event: Event) -> Option<Transition> {
    match (state, event) {
        (DriverState::Idle, Event::BatchDrawn { blobs }) => if blobs == 0 {
            Some(
                Transition {
                    next: DriverState::Idle,
                    action: Action::Sleep { seconds: IDLE_SLEEP_SECS },
                },
            )
        } else {
            Some(Transition { next: DriverState::Submitting, action: Action::Submit })
        },
        (DriverState::Submitting, Event::SubmissionResolved { accepted }) => Some(
            Transition {
                next: DriverState::Idle,
                action: if accepted {
                    Action::DrawNext
                } else {
                    Action::Abort
                },
            },
        ),
        _ => None,
    }
}

/// Decides what follows `event` in `state`.
pub fn step(state: DriverState, event: Event) -> (moved: Option<Transition>)
    ensures
        moved == transition(state, event),
{
    match state {
        DriverState::Idle => match event {
            Event::BatchDrawn { blobs } => {
                if blobs == 0 {
                    Some(
                        Transition {
                            next: DriverState::Idle,
                            action: Action::Sleep { seconds: IDLE_SLEEP_SECS },
                        },
                    )
                } else {
                    Some(Transition { next: DriverState::Submitting, action: Action::Submit })
                }
            },
            Event::SubmissionResolved { .. } => None,
        },
        DriverState::Submitting => match event {
            Event::BatchDrawn { .. } => None,
            Event::SubmissionResolved { accepted } => {
                let action = if accepted {
                    Action::DrawNext
                } else {
                    Action::Abort
                };
                Some(Transition { next: DriverState::Idle, action })
            },
        },
    }
}

/// An empty batch is never submitted: the machine stays idle and asks for a rest
/// of `IDLE_SLEEP_SECS` seconds.
pub proof fn lemma_empty_batch_sleeps()
    ensures
        transition(DriverState::Idle, Event::BatchDrawn { blobs: 0 }) == Some(
            Transition {
                next: DriverState::Idle,
                action: Action::Sleep { seconds: IDLE_SLEEP_SECS },
            },
        ),
{
}

/// Whether `event` in `state` makes the machine ask for a submission.
pub open spec fn asks_to_submit(state: DriverState, event: Event) -> bool {
    match transition(state, event) {
        Some(t) => t.action == Action::Submit,
        None => false,
    }
}

/// A submission is asked for only when an idle machine is told of a batch that
/// holds at least one blob, and the machine is then submitting.
pub proof fn lemma_submit_only_nonempty(state: DriverState, event: Event)
    ensures
        asks_to_submit(state, event) <==> (state == DriverState::Idle && event is BatchDrawn
            && event->blobs > 0),
        asks_to_submit(state, event) ==> transition(state, event).unwrap().next
            == DriverState::Submitting,
{
}

/// Whatever the outcome of a submission, the machine is idle afterwards; a
/// refused submission aborts, an accepted one goes on to the next batch.
pub proof fn lemma_submission_resolves(accepted: bool)
    ensures
        transition(DriverState::Submitting, Event::SubmissionResolved { accepted }) == Some(
            Transition {
                next: DriverState::Idle,
                action: if accepted {
                    Action::DrawNext
                } else {
                    Action::Abort
                },
            },
        ),
{
}

} // verus!
