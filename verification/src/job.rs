//! The job controller: the state machine that owns a transcription job from
//! the moment its request is accepted until its terminal event is emitted.
//!
//! The controller does no outside work. The caller loads audio, runs the
//! engine and delivers events; it reports each thing that happened as one call
//! on the controller and emits what that call returns. [`step`] is the whole
//! rule: every method's contract is one case of it.

use vstd::prelude::*;
use crate::error::{JobError, RequestError};
use crate::event::{emitted, Event, EventView};
use crate::options::{configuration_of, well_formed, DecodeConfiguration, TranscriptionOptions};
use crate::token::CancellationToken;

verus! {

/// Where the controller stands in the life of a job.
#[derive(Debug, Clone, Copy, PartialEq, Eq, Structural)]
pub enum JobPhase {
    /// No job is active.
    Idle,
    /// A request was accepted; the engine has not been launched yet.
    Validating,
    /// The blocking inference call is under way.
    Running,
}

/// The mathematical value of a [`JobController`].
pub struct ControllerView {
    pub phase: JobPhase,
    pub cancel_requested: bool,
}

/// One thing that can happen to a controller.
pub enum JobInput {
    /// A transcription request arrives.
    Request,
    /// The job cannot be launched: no model, no engine state or no audio.
    Abandon { error: JobError },
    /// The blocking inference call is launched.
    Launch,
    /// The engine's progress callback fires.
    Progress { progress: i32 },
    /// The engine's segment callback fires.
    Segment { start: i64, end: i64, text: Seq<char> },
    /// The blocking inference call returns, with success or its failure.
    Returned { returned: Result<(), JobError> },
    /// Cancellation is requested.
    Cancel,
}

/// The state of a controller that has never seen a job.
pub open spec fn initial() -> ControllerView {
    ControllerView { phase: JobPhase::Idle, cancel_requested: false }
}

/// How a job ended.
#[derive(Debug, Clone, PartialEq, Eq)]
pub enum JobOutcome {
    /// The inference call returned success and no cancellation was requested.
    Completed,
    /// Cancellation had been requested when the inference call returned.
    Cancelled,
    /// The job could not be launched, or its inference call failed.
    Failed { error: JobError },
}

/// The outcome of a job whose inference call returned: cancellation wins
/// over both success and failure.
pub open spec fn outcome_of(cancel_requested: bool, returned: Result<(), JobError>) -> JobOutcome {
    if cancel_requested {
        JobOutcome::Cancelled
    } else {
        match returned {
            Ok(_) => JobOutcome::Completed,
            Err(error) => JobOutcome::Failed { error },
        }
    }
}

impl JobOutcome {
    /// The terminal event that reports this outcome.
    pub open spec fn event(self) -> EventView {
        match self {
            JobOutcome::Completed => EventView::Completed,
            JobOutcome::Cancelled => EventView::Cancelled,
            JobOutcome::Failed { error } => EventView::Error { message: error.message_spec() },
        }
    }

    /// Decides the outcome of a job from the cancellation signal and from
    /// what the inference call returned.
    pub fn decide(cancel_requested: bool, returned: Result<(), JobError>) -> (outcome: Self)
        ensures
            outcome == outcome_of(cancel_requested, returned),
    {
        if cancel_requested {
            JobOutcome::Cancelled
        } else {
            match returned {
                Ok(_) => JobOutcome::Completed,
                Err(error) => JobOutcome::Failed { error },
            }
        }
    }

    /// Builds the terminal event that reports this outcome.
    pub fn into_event(self) -> (event: Event)
        ensures
            event@ == self.event(),
            event@.is_terminal(),
    {
        match self {
            JobOutcome::Completed => Event::Completed,
            JobOutcome::Cancelled => Event::Cancelled,
            JobOutcome::Failed { error } => Event::Error { message: error.message() },
        }
    }
}

/// The transition rule: the state after `input` and the event it emits.
///
/// - A request is accepted only when idle; accepting clears the cancellation
///   signal. A request that arrives during a job changes nothing.
/// - Callbacks are forwarded only while running and dropped otherwise.
/// - A job ends by being abandoned before launch or by the engine returning;
///   either emits one terminal event and leaves the controller idle.
/// - Cancellation only raises the signal; it never emits.
pub open spec fn step(s: ControllerView, input: JobInput) -> (ControllerView, Option<EventView>) {
    match input {
        JobInput::Request => if s.phase is Idle {
            (ControllerView { phase: JobPhase::Validating, cancel_requested: false }, None)
        } else {
            (s, None)
        },
        JobInput::Abandon { error } => if s.phase is Validating {
            (
                ControllerView { phase: JobPhase::Idle, ..s },
                Some(JobOutcome::Failed { error }.event()),
            )
        } else {
            (s, None)
        },
        JobInput::Launch => if s.phase is Validating {
            (ControllerView { phase: JobPhase::Running, ..s }, None)
        } else {
            (s, None)
        },
        JobInput::Progress { progress } => if s.phase is Running {
            (s, Some(EventView::Progress { progress }))
        } else {
            (s, None)
        },
        JobInput::Segment { start, end, text } => if s.phase is Running {
            (s, Some(EventView::Segment { start, end, text }))
        } else {
            (s, None)
        },
        JobInput::Returned { returned } => if s.phase is Running {
            (
                ControllerView { phase: JobPhase::Idle, ..s },
                Some(outcome_of(s.cancel_requested, returned).event()),
            )
        } else {
            (s, None)
        },
        JobInput::Cancel => (ControllerView { cancel_requested: true, ..s }, None),
    }
}

/// The orchestration state of the single job that may be active.
pub struct JobController {
    phase: JobPhase,
    token: CancellationToken,
}

impl View for JobController {
    type V = ControllerView;

    closed spec fn view(&self) -> ControllerView {
        ControllerView { phase: self.phase, cancel_requested: self.token.is_raised() }
    }
}

impl JobController {
    /// An idle controller whose cancellation signal is clear.
    pub fn new() -> (controller: Self)
        ensures
            controller@ == initial(),
    {
        JobController { phase: JobPhase::Idle, token: CancellationToken::new() }
    }

    /// The current phase.
    pub fn phase(&self) -> (phase: JobPhase)
        ensures
            phase == self@.phase,
    {
        self.phase
    }

    /// Accepts a request if no job is active, clearing the cancellation
    /// signal; refuses it, changing nothing, if a job is active.
    pub fn accept(&mut self) -> (accepted: Result<(), RequestError>)
        ensures
            final(self)@ == step(old(self)@, JobInput::Request).0,
            accepted is Ok <==> old(self)@.phase is Idle,
            accepted matches Err(e) ==> e == RequestError::JobAlreadyRunning,
    {
        match self.phase {
            JobPhase::Idle => {
                self.token.reset();
                self.phase = JobPhase::Validating;
                Ok(())
            },
            _ => Err(RequestError::JobAlreadyRunning),
        }
    }

    /// Ends a job that cannot be launched. Emits its `error` event if a job
    /// was waiting to be launched; otherwise nothing happens.
    pub fn abandon(&mut self, error: JobError) -> (event: Option<Event>)
        ensures
            (final(self)@, emitted(event)) == step(old(self)@, JobInput::Abandon { error }),
    {
        match self.phase {
            JobPhase::Validating => {
                self.phase = JobPhase::Idle;
                Some(JobOutcome::Failed { error }.into_event())
            },
            _ => None,
        }
    }

    /// Marks the blocking inference call as launched. Returns whether a job
    /// was waiting to be launched; if none was, nothing happens.
    pub fn launch(&mut self) -> (launched: bool)
        ensures
            final(self)@ == step(old(self)@, JobInput::Launch).0,
            launched == (old(self)@.phase is Validating),
    {
        match self.phase {
            JobPhase::Validating => {
                self.phase = JobPhase::Running;
                true
            },
            _ => false,
        }
    }

    /// The progress callback: forwarded while running, dropped otherwise.
    pub fn on_progress(&self, progress: i32) -> (event: Option<Event>)
        ensures
            (self@, emitted(event)) == step(self@, JobInput::Progress { progress }),
    {
        match self.phase {
            JobPhase::Running => Some(Event::Progress { progress }),
            _ => None,
        }
    }

    /// The segment callback: forwarded while running, dropped otherwise.
    pub fn on_segment(&self, start: i64, end: i64, text: String) -> (event: Option<Event>)
        ensures
            (self@, emitted(event)) == step(
                self@,
                JobInput::Segment { start, end, text: text@ },
            ),
    {
        match self.phase {
            JobPhase::Running => Some(Event::Segment { start, end, text }),
            _ => None,
        }
    }

    /// The abort-check callback: what the engine reads at its checkpoints.
    pub fn should_abort(&self) -> (abort: bool)
        ensures
            abort == self@.cancel_requested,
    {
        self.token.check()
    }

    /// Ends a running job when the blocking inference call has returned.
    /// Emits the job's terminal event; if no job was running, nothing happens.
    pub fn finish(&mut self, returned: Result<(), JobError>) -> (event: Option<Event>)
        ensures
            (final(self)@, emitted(event)) == step(old(self)@, JobInput::Returned { returned }),
    {
        match self.phase {
            JobPhase::Running => {
                self.phase = JobPhase::Idle;
                Some(JobOutcome::decide(self.token.check(), returned).into_event())
            },
            _ => None,
        }
    }

    /// Raises the cancellation signal. Nothing is emitted; a running job
    /// observes the signal at the engine's next checkpoint.
    pub fn cancel(&mut self)
        ensures
            (final(self)@, None::<EventView>) == step(old(self)@, JobInput::Cancel),
    {
        self.token.raise();
    }
}

/// Why a request with these options is refused in state `s`, if it is:
/// malformed options are refused whatever the state, well-formed ones only
/// while a job is active.
pub open spec fn refusal(options: TranscriptionOptions, s: ControllerView) -> Option<RequestError> {
    if !well_formed(options) {
        Some(RequestError::MalformedOptions)
    } else if !(s.phase is Idle) {
        Some(RequestError::JobAlreadyRunning)
    } else {
        None
    }
}

/// Handles a transcription request. A request that is not refused is
/// accepted: the cancellation signal is cleared, the controller starts
/// validating and the job's decode configuration is returned. A refused
/// request changes nothing.
pub fn transcribe(options: &TranscriptionOptions, controller: &mut JobController) -> (accepted:
    Result<DecodeConfiguration, RequestError>)
    ensures
        match accepted {
            Ok(configuration) => refusal(*options, old(controller)@) is None && configuration
                == configuration_of(*options) && final(controller)@ == step(
                old(controller)@,
                JobInput::Request,
            ).0,
            Err(e) => refusal(*options, old(controller)@) == Some(e) && final(controller)@ == old(
                controller,
            )@,
        },
{
    let configuration = match DecodeConfiguration::from_options(options) {
        Ok(configuration) => configuration,
        Err(e) => {
            return Err(e);
        },
    };
    match controller.accept() {
        Ok(_) => Ok(configuration),
        Err(e) => Err(e),
    }
}

/// Handles a cancellation request: raises the signal and emits nothing. It
/// always succeeds; with no job running it has no effect on any event.
pub fn cancel_transcription(controller: &mut JobController)
    ensures
        (final(controller)@, None::<EventView>) == step(old(controller)@, JobInput::Cancel),
{
    controller.cancel();
}

} // verus!
