//! The events a job delivers to its subscriber.

use vstd::prelude::*;

verus! {

/// An event delivered to the subscriber of a job.
#[derive(Debug, Clone, PartialEq, Eq)]
pub enum Event {
    /// The engine reported how far it is, in percent.
    Progress { progress: i32 },
    /// The engine recognised a span of speech. Times are in centiseconds.
    Segment { start: i64, end: i64, text: String },
    /// The job ran to its end.
    Completed,
    /// The job ended after cancellation was requested.
    Cancelled,
    /// The job failed; `message` says why.
    Error { message: String },
}

/// The mathematical value of an [`Event`].
pub enum EventView {
    Progress { progress: i32 },
    Segment { start: i64, end: i64, text: Seq<char> },
    Completed,
    Cancelled,
    Error { message: Seq<char> },
}

impl EventView {
    /// A terminal event ends the event stream of its job.
    pub open spec fn is_terminal(self) -> bool {
        self is Completed || self is Cancelled || self is Error
    }

    /// The name under which the event is delivered.
    pub open spec fn name(self) -> Seq<char> {
        match self {
            EventView::Progress { .. } => "transcribe_progress"@,
            EventView::Segment { .. } => "new_segment"@,
            EventView::Completed => "transcribe_completed"@,
            EventView::Cancelled => "transcribe_cancelled"@,
            EventView::Error { .. } => "transcribe_error"@,
        }
    }
}

impl View for Event {
    type V = EventView;

    open spec fn view(&self) -> EventView {
        match *self {
            Event::Progress { progress } => EventView::Progress { progress },
            Event::Segment { start, end, text } => EventView::Segment { start, end, text: text@ },
            Event::Completed => EventView::Completed,
            Event::Cancelled => EventView::Cancelled,
            Event::Error { message } => EventView::Error { message: message@ },
        }
    }
}

/// The value of what one step emitted: an event or nothing.
pub open spec fn emitted(event: Option<Event>) -> Option<EventView> {
    match event {
        Some(e) => Some(e@),
        None => None,
    }
}

impl Event {
    /// Whether this event ends the event stream of its job.
    pub fn is_terminal(&self) -> (terminal: bool)
        ensures
            terminal == self@.is_terminal(),
    {
        match self {
            Event::Progress { .. } => false,
            Event::Segment { .. } => false,
            Event::Completed => true,
            Event::Cancelled => true,
            Event::Error { .. } => true,
        }
    }

    /// The name under which the event is delivered.
    pub fn name(&self) -> (name: &'static str)
        ensures
            name@ == self@.name(),
    {
        match self {
            Event::Progress { .. } => "transcribe_progress",
            Event::Segment { .. } => "new_segment",
            Event::Completed => "transcribe_completed",
            Event::Cancelled => "transcribe_cancelled",
            Event::Error { .. } => "transcribe_error",
        }
    }
}

} // verus!
