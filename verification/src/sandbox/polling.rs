//! Waiting for a sandbox's address, a bounded number of times.
//!
//! The library decides; the caller looks the address up and sleeps. Attempts
//! are counted from 1. A lookup that finds the address ends the wait with
//! it. One that fails at the last attempt ends the wait with a timeout; one
//! that fails earlier is followed by a pause of fixed length and the next
//! attempt.

use crate::error::{SandboxError, SandboxErrorView};
use crate::sandbox::ingress::lookup_view;
use vstd::prelude::*;
use vstd::string::*;

verus! {

/// The pause between two attempts, in seconds.
pub const POLL_INTERVAL_SECONDS: u64 = 5;

/// Where a wait stands.
#[derive(Clone, Debug, PartialEq, Eq)]
pub enum PollState {
    /// The caller is making the attempt of this number.
    Polling(u32),
    /// The address was found.
    Ready(String),
    /// The attempts are used up.
    TimedOut,
}

/// The mathematical content of a [`PollState`].
pub enum PollStateView {
    Polling(u32),
    Ready(Seq<char>),
    TimedOut,
}

impl DeepView for PollState {
    type V = PollStateView;

    open spec fn deep_view(&self) -> PollStateView {
        match self {
            PollState::Polling(attempt) => PollStateView::Polling(*attempt),
            PollState::Ready(address) => PollStateView::Ready(address@),
            PollState::TimedOut => PollStateView::TimedOut,
        }
    }
}

impl View for PollState {
    type V = PollStateView;

    open spec fn view(&self) -> PollStateView {
        self.deep_view()
    }
}

/// What the caller of a wait has to do next.
#[derive(Debug, PartialEq, Eq)]
pub enum PollAction {
    /// Look the address up and report the answer.
    Lookup,
    /// Sleep for this many seconds, then look the address up and report the
    /// answer.
    SleepThenLookup(u64),
    /// Stop: the wait has ended in this way.
    Finish(Result<String, SandboxError>),
}

/// The mathematical content of a [`PollAction`].
pub enum PollActionView {
    Lookup,
    SleepThenLookup(u64),
    Finish(Result<Seq<char>, SandboxErrorView>),
}

impl DeepView for PollAction {
    type V = PollActionView;

    open spec fn deep_view(&self) -> PollActionView {
        match self {
            PollAction::Lookup => PollActionView::Lookup,
            PollAction::SleepThenLookup(seconds) => PollActionView::SleepThenLookup(*seconds),
            PollAction::Finish(answer) => PollActionView::Finish(lookup_view(*answer)),
        }
    }
}

impl View for PollAction {
    type V = PollActionView;

    open spec fn view(&self) -> PollActionView {
        self.deep_view()
    }
}

/// How a wait of at most `max_attempts` attempts begins: with the first
/// lookup, or, where no attempt is allowed, with a timeout at once.
pub open spec fn poll_begin(max_attempts: u32) -> (PollStateView, PollActionView) {
    if max_attempts == 0 {
        (PollStateView::TimedOut, PollActionView::Finish(Err(SandboxErrorView::Timeout)))
    } else {
        (PollStateView::Polling(1), PollActionView::Lookup)
    }
}

/// How a wait goes on after the answer to the lookup it asked for. A wait
/// that has ended stays as it is, whatever is reported.
pub open spec fn poll_transition(
    state: PollStateView,
    max_attempts: u32,
    answer: Result<Seq<char>, SandboxErrorView>,
) -> (PollStateView, PollActionView) {
    match state {
        PollStateView::Polling(attempt) => match answer {
            Ok(address) => (PollStateView::Ready(address), PollActionView::Finish(Ok(address))),
            Err(_) => if attempt >= max_attempts {
                (PollStateView::TimedOut, PollActionView::Finish(Err(SandboxErrorView::Timeout)))
            } else {
                (
                    PollStateView::Polling((attempt + 1) as u32),
                    PollActionView::SleepThenLookup(POLL_INTERVAL_SECONDS),
                )
            },
        },
        PollStateView::Ready(address) => (
            PollStateView::Ready(address),
            PollActionView::Finish(Ok(address)),
        ),
        PollStateView::TimedOut => (
            PollStateView::TimedOut,
            PollActionView::Finish(Err(SandboxErrorView::Timeout)),
        ),
    }
}

/// What a wait returns to its caller once it has ended: the address, or a
/// timeout.
pub open spec fn poll_result(state: PollStateView) -> Option<Result<Seq<char>, SandboxErrorView>> {
    match state {
        PollStateView::Polling(_) => None,
        PollStateView::Ready(address) => Some(Ok(address)),
        PollStateView::TimedOut => Some(Err(SandboxErrorView::Timeout)),
    }
}

/// What a wait has come to: its state, the lookups it made, the pauses it
/// took.
pub struct PollTrace {
    pub state: PollStateView,
    pub attempts: nat,
    pub sleeps: nat,
}

/// A wait run from `state` against the answers that the lookups would give,
/// in order. It makes a lookup only while it is polling and an answer is
/// left.
pub open spec fn poll_run(
    state: PollStateView,
    max_attempts: u32,
    answers: Seq<Result<Seq<char>, SandboxErrorView>>,
) -> PollTrace
    decreases answers.len(),
{
    if state is Polling && answers.len() > 0 {
        let step = poll_transition(state, max_attempts, answers[0]);
        let rest = poll_run(step.0, max_attempts, answers.skip(1));
        PollTrace {
            state: rest.state,
            attempts: rest.attempts + 1,
            sleeps: if step.1 is SleepThenLookup {
                rest.sleeps + 1
            } else {
                rest.sleeps
            },
        }
    } else {
        PollTrace { state, attempts: 0, sleeps: 0 }
    }
}

/// Begins a wait of at most `max_attempts` attempts.
pub fn wait_for_loadbalancer(max_attempts: u32) -> (begin: (PollState, PollAction))
    ensures
        (begin.0@, begin.1@) == poll_begin(max_attempts),
{
    if max_attempts == 0 {
        (PollState::TimedOut, PollAction::Finish(Err(SandboxError::Timeout)))
    } else {
        (PollState::Polling(1), PollAction::Lookup)
    }
}

/// Advances a wait by the answer to the lookup it asked for.
pub fn poll_next(
    state: PollState,
    max_attempts: u32,
    answer: Result<String, SandboxError>,
) -> (next: (PollState, PollAction))
    ensures
        (next.0@, next.1@) == poll_transition(state@, max_attempts, lookup_view(answer)),
{
    match state {
        PollState::Polling(attempt) => match answer {
            Ok(address) => {
                let report = address.clone();
                (PollState::Ready(address), PollAction::Finish(Ok(report)))
            },
            Err(_) => {
                if attempt >= max_attempts {
                    (PollState::TimedOut, PollAction::Finish(Err(SandboxError::Timeout)))
                } else {
                    (
                        PollState::Polling(attempt + 1),
                        PollAction::SleepThenLookup(POLL_INTERVAL_SECONDS),
                    )
                }
            },
        },
        PollState::Ready(address) => {
            let report = address.clone();
            (PollState::Ready(address), PollAction::Finish(Ok(report)))
        },
        PollState::TimedOut => (
            PollState::TimedOut,
            PollAction::Finish(Err(SandboxError::Timeout)),
        ),
    }
}

proof fn lemma_failing_run(
    attempt: u32,
    max_attempts: u32,
    answers: Seq<Result<Seq<char>, SandboxErrorView>>,
)
    requires
        1 <= attempt <= max_attempts,
        answers.len() >= max_attempts - attempt + 1,
        forall|i: int| 0 <= i <= max_attempts - attempt ==> (#[trigger] answers[i]) is Err,
    ensures
        poll_run(PollStateView::Polling(attempt), max_attempts, answers) == (PollTrace {
            state: PollStateView::TimedOut,
            attempts: (max_attempts - attempt + 1) as nat,
            sleeps: (max_attempts - attempt) as nat,
        }),
    decreases max_attempts - attempt,
{
    assert(answers[0] is Err);
    let rest = answers.skip(1);
    if attempt < max_attempts {
        assert forall|i: int| 0 <= i <= max_attempts - (attempt + 1) implies (#[trigger] rest[i])
            is Err by {
            assert(rest[i] == answers[i + 1]);
        }
        lemma_failing_run((attempt + 1) as u32, max_attempts, rest);
    } else {
        assert(poll_run(PollStateView::TimedOut, max_attempts, rest) == (PollTrace {
            state: PollStateView::TimedOut,
            attempts: 0,
            sleeps: 0,
        }));
    }
}

/// Where every lookup fails, a wait of `max_attempts` attempts makes exactly
/// that many lookups, pauses between them and not after the last, and ends
/// in a timeout: never with an address.
pub proof fn lemma_bounded_polling(
    max_attempts: u32,
    answers: Seq<Result<Seq<char>, SandboxErrorView>>,
)
    requires
        answers.len() >= max_attempts,
        forall|i: int| 0 <= i < answers.len() ==> (#[trigger] answers[i]) is Err,
    ensures
        poll_result(poll_run(poll_begin(max_attempts).0, max_attempts, answers).state) == Some(
            Err::<Seq<char>, SandboxErrorView>(SandboxErrorView::Timeout),
        ),
        poll_run(poll_begin(max_attempts).0, max_attempts, answers).attempts == max_attempts,
        max_attempts > 0 ==> poll_run(poll_begin(max_attempts).0, max_attempts, answers).sleeps
            == max_attempts - 1,
{
    if max_attempts > 0 {
        lemma_failing_run(1, max_attempts, answers);
    }
}

/// Where the lookups fail until one finds an address within the allowed
/// attempts, the wait ends with that address, after one lookup more than it
/// had failures and as many pauses as failures.
pub proof fn lemma_ready_after_failures(
    attempt: u32,
    max_attempts: u32,
    answers: Seq<Result<Seq<char>, SandboxErrorView>>,
    failures: nat,
)
    requires
        1 <= attempt,
        attempt + failures <= max_attempts,
        failures < answers.len(),
        forall|i: int| 0 <= i < failures ==> (#[trigger] answers[i]) is Err,
        answers[failures as int] is Ok,
    ensures
        poll_run(PollStateView::Polling(attempt), max_attempts, answers) == (PollTrace {
            state: PollStateView::Ready(answers[failures as int]->Ok_0),
            attempts: failures + 1,
            sleeps: failures,
        }),
    decreases failures,
{
    let rest = answers.skip(1);
    if failures > 0 {
        assert(answers[0] is Err);
        assert forall|i: int| 0 <= i < failures - 1 implies (#[trigger] rest[i]) is Err by {
            assert(rest[i] == answers[i + 1]);
        }
        assert(rest[failures - 1] == answers[failures as int]);
        lemma_ready_after_failures(
            (attempt + 1) as u32,
            max_attempts,
            rest,
            (failures - 1) as nat,
        );
    } else {
        let address = answers[0]->Ok_0;
        assert(poll_run(PollStateView::Ready(address), max_attempts, rest) == (PollTrace {
            state: PollStateView::Ready(address),
            attempts: 0,
            sleeps: 0,
        }));
    }
}

} // verus!
