//! What holds of every sequence of inputs a controller can see.
//!
//! [`run`] folds the transition rule over a sequence of inputs and collects the
//! events emitted on the way. The proof functions below state, over `run`, the
//! guarantees a subscriber may rely on.

use vstd::prelude::*;
use crate::error::JobError;
use crate::event::EventView;
use crate::job::{step, ControllerView, JobInput};

verus! {

/// `events` with what one step emitted appended to it.
pub open spec fn extend(events: Seq<EventView>, emitted: Option<EventView>) -> Seq<EventView> {
    match emitted {
        Some(e) => events.push(e),
        None => events,
    }
}

/// The state reached from `s` after `inputs`, and the events emitted on the
/// way, in the order of emission.
pub open spec fn run(s: ControllerView, inputs: Seq<JobInput>) -> (ControllerView, Seq<EventView>)
    decreases inputs.len(),
{
    if inputs.len() == 0 {
        (s, Seq::empty())
    } else {
        let before = run(s, inputs.drop_last());
        let after = step(before.0, inputs.last());
        (after.0, extend(before.1, after.1))
    }
}

/// No request is accepted during `inputs`: whenever a request arrives, a job
/// is active. Inputs from `s` then belong to at most one job.
pub open spec fn no_new_job(s: ControllerView, inputs: Seq<JobInput>) -> bool {
    forall|i: int|
        0 <= i < inputs.len() && inputs[i] is Request ==> !((#[trigger] run(
            s,
            inputs.take(i),
        )).0.phase is Idle)
}

/// How many of the requests among `inputs` are accepted, that is, how many
/// jobs begin during `inputs`.
pub open spec fn accepted_requests(s: ControllerView, inputs: Seq<JobInput>) -> nat
    decreases inputs.len(),
{
    if inputs.len() == 0 {
        0
    } else {
        let earlier = accepted_requests(s, inputs.drop_last());
        if inputs.last() is Request && run(s, inputs.drop_last()).0.phase is Idle {
            earlier + 1
        } else {
            earlier
        }
    }
}

/// How many of `events` are terminal.
pub open spec fn terminal_count(events: Seq<EventView>) -> nat
    decreases events.len(),
{
    if events.len() == 0 {
        0
    } else if events.last().is_terminal() {
        terminal_count(events.drop_last()) + 1
    } else {
        terminal_count(events.drop_last())
    }
}

/// One if a job is active in `s`, else zero.
pub open spec fn active_jobs(s: ControllerView) -> nat {
    if s.phase is Idle {
        0
    } else {
        1
    }
}

/// The callbacks among `inputs` that arrive while a job is running, as the
/// events they stand for, in order of arrival.
pub open spec fn forwarded(s: ControllerView, inputs: Seq<JobInput>) -> Seq<EventView>
    decreases inputs.len(),
{
    if inputs.len() == 0 {
        Seq::empty()
    } else {
        let earlier = forwarded(s, inputs.drop_last());
        if run(s, inputs.drop_last()).0.phase is Running {
            match inputs.last() {
                JobInput::Progress { progress } => earlier.push(EventView::Progress { progress }),
                JobInput::Segment { start, end, text } => earlier.push(
                    EventView::Segment { start, end, text },
                ),
                _ => earlier,
            }
        } else {
            earlier
        }
    }
}

/// The events of `events` that are not terminal, in order.
pub open spec fn body(events: Seq<EventView>) -> Seq<EventView>
    decreases events.len(),
{
    if events.len() == 0 {
        Seq::empty()
    } else if events.last().is_terminal() {
        body(events.drop_last())
    } else {
        body(events.drop_last()).push(events.last())
    }
}

/// The percentages of the progress events of `events`, in order.
pub open spec fn progress_values(events: Seq<EventView>) -> Seq<int>
    decreases events.len(),
{
    if events.len() == 0 {
        Seq::empty()
    } else {
        match events.last() {
            EventView::Progress { progress } => progress_values(events.drop_last()).push(
                progress as int,
            ),
            _ => progress_values(events.drop_last()),
        }
    }
}

/// The start and end times of the segment events of `events`, in order.
pub open spec fn segment_spans(events: Seq<EventView>) -> Seq<(int, int)>
    decreases events.len(),
{
    if events.len() == 0 {
        Seq::empty()
    } else {
        match events.last() {
            EventView::Segment { start, end, text } => segment_spans(events.drop_last()).push(
                (start as int, end as int),
            ),
            _ => segment_spans(events.drop_last()),
        }
    }
}

/// Percentages that lie in 0..=100 and never decrease.
pub open spec fn percent_ordered(values: Seq<int>) -> bool {
    &&& forall|i: int| 0 <= i < values.len() ==> 0 <= #[trigger] values[i] <= 100
    &&& forall|i: int, j: int| 0 <= i < j < values.len() ==> values[i] <= values[j]
}

/// Spans that start no later than they end and whose starts never decrease.
/// A span may begin before the one ahead of it has ended.
pub open spec fn spans_ordered(spans: Seq<(int, int)>) -> bool {
    &&& forall|i: int| 0 <= i < spans.len() ==> (#[trigger] spans[i]).0 <= spans[i].1
    &&& forall|i: int, j: int| 0 <= i < j < spans.len() ==> spans[i].0 <= spans[j].0
}

/// Running over two sequences one after the other is running over their
/// concatenation: the events of the second follow those of the first.
pub proof fn lemma_run_concat(s: ControllerView, first: Seq<JobInput>, second: Seq<JobInput>)
    ensures
        run(s, first + second).0 == run(run(s, first).0, second).0,
        run(s, first + second).1 == run(s, first).1 + run(run(s, first).0, second).1,
    decreases second.len(),
{
    if second.len() == 0 {
        assert(first + second =~= first);
        assert(run(s, first).1 + Seq::<EventView>::empty() =~= run(s, first).1);
    } else {
        assert((first + second).drop_last() =~= first + second.drop_last());
        assert((first + second).last() == second.last());
        lemma_run_concat(s, first, second.drop_last());
        let mid = run(s, first);
        let before = run(mid.0, second.drop_last());
        let after = step(before.0, second.last());
        assert(mid.1 + extend(before.1, after.1) =~= extend(mid.1 + before.1, after.1));
    }
}

/// One step emits a terminal event exactly when it ends a job, an idle
/// controller emits nothing, and a step that emits any other event leaves a
/// running job as it was.
pub proof fn lemma_terminal_event_ends_job(s: ControllerView, input: JobInput)
    ensures
        (step(s, input).1 matches Some(e) && e.is_terminal()) <==> (!(s.phase is Idle) && step(
            s,
            input,
        ).0.phase is Idle),
        s.phase is Idle ==> step(s, input).1 is None,
        (step(s, input).1 matches Some(e) && !e.is_terminal()) ==> (s.phase is Running && step(
            s,
            input,
        ).0 == s),
{
}

/// Over any run, as many terminal events are emitted as jobs have ended: the
/// jobs that were active or began during the run, less the one still active.
pub proof fn lemma_terminal_events_count_ended_jobs(s: ControllerView, inputs: Seq<JobInput>)
    ensures
        terminal_count(run(s, inputs).1) + active_jobs(run(s, inputs).0) == active_jobs(s)
            + accepted_requests(s, inputs),
    decreases inputs.len(),
{
    if inputs.len() > 0 {
        lemma_terminal_events_count_ended_jobs(s, inputs.drop_last());
        let before = run(s, inputs.drop_last());
        let after = step(before.0, inputs.last());
        match after.1 {
            Some(e) => {
                assert(before.1.push(e).drop_last() =~= before.1);
                assert(before.1.push(e).last() == e);
            },
            None => {},
        }
    }
}

/// A job's events hold at most one terminal event, it is the last event, and
/// it is there exactly when the job has ended. `s` is any state of a job that
/// has not ended, such as the state in which its request was accepted; the
/// inputs may run on past the job's end, up to the next accepted request.
pub proof fn lemma_one_terminal_event_per_job(s: ControllerView, inputs: Seq<JobInput>)
    requires
        !(s.phase is Idle),
        no_new_job(s, inputs),
    ensures
        forall|k: int|
            0 <= k < run(s, inputs).1.len() && (#[trigger] run(s, inputs).1[k]).is_terminal() ==> k
                == run(s, inputs).1.len() - 1,
        run(s, inputs).0.phase is Idle <==> (run(s, inputs).1.len() > 0 && run(
            s,
            inputs,
        ).1.last().is_terminal()),
    decreases inputs.len(),
{
    if inputs.len() > 0 {
        let earlier = inputs.drop_last();
        assert forall|i: int| 0 <= i < earlier.len() && earlier[i] is Request implies !((
        #[trigger] run(s, earlier.take(i))).0.phase is Idle) by {
            assert(earlier.take(i) =~= inputs.take(i));
            assert(inputs[i] is Request);
        }
        lemma_one_terminal_event_per_job(s, earlier);
        let before = run(s, earlier);
        if before.0.phase is Idle {
            assert(inputs.take(inputs.len() - 1) =~= earlier);
            assert(!(inputs[inputs.len() - 1] is Request));
        }
    }
}

/// A job that is abandoned before launch emits its error event and nothing
/// else, whatever callbacks, cancellations or further requests arrive in
/// between. With `JobError::ModelNotLoaded` as the error, this is a request
/// made with no model loaded.
pub proof fn lemma_abandoned_job_emits_only_its_error(
    s: ControllerView,
    between: Seq<JobInput>,
    error: JobError,
)
    requires
        s.phase is Idle,
        forall|i: int|
            0 <= i < between.len() ==> !(#[trigger] between[i] is Launch) && !(between[i]
                is Abandon),
    ensures
        run(s, seq![JobInput::Request] + between + seq![JobInput::Abandon { error }]).1
            == seq![EventView::Error { message: error.message_spec() }],
        run(s, seq![JobInput::Request] + between + seq![JobInput::Abandon { error }]).0.phase
            is Idle,
{
    let opening = seq![JobInput::Request] + between;
    lemma_validating_until_launch(s, between);
    let whole = opening + seq![JobInput::Abandon { error }];
    assert(whole.drop_last() =~= opening);
    assert(whole.last() == JobInput::Abandon { error });
    assert(Seq::<EventView>::empty().push(EventView::Error { message: error.message_spec() })
        =~= seq![EventView::Error { message: error.message_spec() }]);
}

/// After an accepted request, the controller validates and emits nothing for
/// as long as the job is neither launched nor abandoned.
proof fn lemma_validating_until_launch(s: ControllerView, between: Seq<JobInput>)
    requires
        s.phase is Idle,
        forall|i: int|
            0 <= i < between.len() ==> !(#[trigger] between[i] is Launch) && !(between[i]
                is Abandon),
    ensures
        run(s, seq![JobInput::Request] + between).0.phase is Validating,
        run(s, seq![JobInput::Request] + between).1 == Seq::<EventView>::empty(),
    decreases between.len(),
{
    let opening = seq![JobInput::Request] + between;
    if between.len() == 0 {
        assert(opening.drop_last() =~= Seq::<JobInput>::empty());
        assert(opening.last() == JobInput::Request);
        assert(run(s, opening.drop_last()) == (s, Seq::<EventView>::empty()));
    } else {
        let earlier = between.drop_last();
        assert(opening.drop_last() =~= seq![JobInput::Request] + earlier);
        assert(opening.last() == between[between.len() - 1]);
        assert forall|i: int| 0 <= i < earlier.len() implies !(#[trigger] earlier[i] is Launch)
            && !(earlier[i] is Abandon) by {
            assert(earlier[i] == between[i]);
        }
        lemma_validating_until_launch(s, earlier);
    }
}

/// The events of a run that are not terminal are exactly the callbacks that
/// arrived while a job was running: none is lost, added, altered or moved.
pub proof fn lemma_callbacks_forwarded(s: ControllerView, inputs: Seq<JobInput>)
    ensures
        body(run(s, inputs).1) == forwarded(s, inputs),
    decreases inputs.len(),
{
    if inputs.len() > 0 {
        lemma_callbacks_forwarded(s, inputs.drop_last());
        let before = run(s, inputs.drop_last());
        let after = step(before.0, inputs.last());
        match after.1 {
            Some(e) => {
                assert(before.1.push(e).drop_last() =~= before.1);
                assert(before.1.push(e).last() == e);
            },
            None => {},
        }
    }
}

/// The progress percentages of a sequence of events are those of its body.
proof fn lemma_progress_values_of_body(events: Seq<EventView>)
    ensures
        progress_values(body(events)) == progress_values(events),
    decreases events.len(),
{
    if events.len() > 0 {
        lemma_progress_values_of_body(events.drop_last());
        if !events.last().is_terminal() {
            let kept = body(events.drop_last()).push(events.last());
            assert(kept.drop_last() =~= body(events.drop_last()));
            assert(kept.last() == events.last());
        }
    }
}

/// The segment spans of a sequence of events are those of its body.
proof fn lemma_segment_spans_of_body(events: Seq<EventView>)
    ensures
        segment_spans(body(events)) == segment_spans(events),
    decreases events.len(),
{
    if events.len() > 0 {
        lemma_segment_spans_of_body(events.drop_last());
        if !events.last().is_terminal() {
            let kept = body(events.drop_last()).push(events.last());
            assert(kept.drop_last() =~= body(events.drop_last()));
            assert(kept.last() == events.last());
        }
    }
}

/// If the percentages the engine reports while running lie in 0..=100 and
/// never decrease, so do the progress events that are emitted.
pub proof fn lemma_progress_events_ordered(s: ControllerView, inputs: Seq<JobInput>)
    requires
        percent_ordered(progress_values(forwarded(s, inputs))),
    ensures
        percent_ordered(progress_values(run(s, inputs).1)),
{
    lemma_callbacks_forwarded(s, inputs);
    lemma_progress_values_of_body(run(s, inputs).1);
}

/// If the segments the engine reports while running each start no later than
/// they end and come with starts that never decrease, so do the segment
/// events that are emitted.
pub proof fn lemma_segment_events_ordered(s: ControllerView, inputs: Seq<JobInput>)
    requires
        spans_ordered(segment_spans(forwarded(s, inputs))),
    ensures
        spans_ordered(segment_spans(run(s, inputs).1)),
{
    lemma_callbacks_forwarded(s, inputs);
    lemma_segment_spans_of_body(run(s, inputs).1);
}

/// Once cancellation is requested during a job, the job never completes: no
/// `completed` event follows before the next accepted request. If the job is
/// running, or is not abandoned before launch, every terminal event that
/// follows is `cancelled`, whether the engine returns success or failure.
/// `s` is the state of an active job right after cancellation was requested,
/// before any progress or at any later time.
pub proof fn lemma_cancelled_job_never_completes(s: ControllerView, inputs: Seq<JobInput>)
    requires
        !(s.phase is Idle),
        s.cancel_requested,
        no_new_job(s, inputs),
    ensures
        run(s, inputs).0.cancel_requested,
        s.phase is Running ==> !(run(s, inputs).0.phase is Validating),
        forall|k: int|
            0 <= k < run(s, inputs).1.len() ==> !(#[trigger] run(s, inputs).1[k] is Completed),
        (s.phase is Running || forall|i: int|
            0 <= i < inputs.len() ==> !(#[trigger] inputs[i] is Abandon)) ==> forall|k: int|
            0 <= k < run(s, inputs).1.len() && (#[trigger] run(s, inputs).1[k]).is_terminal()
                ==> run(s, inputs).1[k] is Cancelled,
    decreases inputs.len(),
{
    if inputs.len() > 0 {
        let earlier = inputs.drop_last();
        assert forall|i: int| 0 <= i < earlier.len() && earlier[i] is Request implies !((
        #[trigger] run(s, earlier.take(i))).0.phase is Idle) by {
            assert(earlier.take(i) =~= inputs.take(i));
            assert(inputs[i] is Request);
        }
        lemma_cancelled_job_never_completes(s, earlier);
        let before = run(s, earlier);
        if before.0.phase is Idle {
            assert(inputs.take(inputs.len() - 1) =~= earlier);
            assert(!(inputs[inputs.len() - 1] is Request));
        }
        if forall|i: int| 0 <= i < inputs.len() ==> !(#[trigger] inputs[i] is Abandon) {
            assert forall|i: int| 0 <= i < earlier.len() implies !(#[trigger] earlier[i]
                is Abandon) by {
                assert(earlier[i] == inputs[i]);
            }
            assert(!(inputs[inputs.len() - 1] is Abandon));
        }
    }
}

/// Requesting cancellation during a job leads to a state of that job in which
/// cancellation is requested, and emits nothing.
pub proof fn lemma_cancel_raises_the_signal(s: ControllerView)
    ensures
        step(s, JobInput::Cancel).0.cancel_requested,
        step(s, JobInput::Cancel).0.phase == s.phase,
        step(s, JobInput::Cancel).1 is None,
{
}

/// Cancellation requested while no job is active has no observable effect:
/// it emits nothing, and every later run emits the same events and passes
/// through the same phases as if it had not been requested.
pub proof fn lemma_cancel_when_idle_is_unobservable(s: ControllerView, inputs: Seq<JobInput>)
    requires
        s.phase is Idle,
    ensures
        step(s, JobInput::Cancel).1 is None,
        step(s, JobInput::Cancel).0.phase is Idle,
        run(step(s, JobInput::Cancel).0, inputs).1 == run(s, inputs).1,
        run(step(s, JobInput::Cancel).0, inputs).0.phase == run(s, inputs).0.phase,
        !(run(s, inputs).0.phase is Idle) ==> run(step(s, JobInput::Cancel).0, inputs).0 == run(
            s,
            inputs,
        ).0,
    decreases inputs.len(),
{
    if inputs.len() > 0 {
        lemma_cancel_when_idle_is_unobservable(s, inputs.drop_last());
    }
}

/// Requesting cancellation twice is the same as requesting it once.
pub proof fn lemma_cancel_is_idempotent(s: ControllerView)
    ensures
        step(step(s, JobInput::Cancel).0, JobInput::Cancel) == step(s, JobInput::Cancel),
{
}

} // verus!
