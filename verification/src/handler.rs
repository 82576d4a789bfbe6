//! The course of one invocation: query, extract, publish.
//!
//! The caller talks to the two services; after each answer it asks here what
//! to do next. An invocation waits for the cost provider, then for the
//! monitoring service, and is finished at the first failure or at the
//! acknowledgment of its one write.

use vstd::prelude::*;
use crate::error::{BridgeError, ErrorView};
use crate::decimal::is_float_text;
use crate::metric::{build_metric_write, write_of, MetricWrite, WriteView};
use crate::request::{InvocationRequest, RequestView};
use crate::response::{extract_percentage, extracted, PeriodSummary};

verus! {

/// Where an invocation stands.
#[derive(Debug, Clone, Copy, PartialEq, Eq, Structural)]
pub enum Phase {
    /// The query is with the cost provider.
    Querying,
    /// The figure is read out of the answer. No service is waited for here:
    /// a step passes through this phase on its way from `Querying`.
    Extracting,
    /// The write is shaped and is with the monitoring service.
    Publishing,
    /// Nothing more happens.
    Finished,
}

/// What a service answered.
#[derive(Debug, Clone, PartialEq, Eq)]
pub enum Event {
    /// The cost provider answered with these periods, oldest first.
    QueryAnswered(Vec<PeriodSummary>),
    /// The cost provider failed, with these words.
    QueryFailed(String),
    /// The monitoring service acknowledged the write, with these words.
    WriteAcknowledged(String),
    /// The monitoring service failed, with these words.
    WriteFailed(String),
}

/// What the caller is to do next.
#[derive(Debug, Clone, PartialEq, Eq)]
pub enum Action {
    /// Send this write to the monitoring service.
    Write(MetricWrite),
    /// End the invocation with this acknowledgment.
    Succeed(String),
    /// End the invocation with this error.
    Fail(BridgeError),
}

/// An `Action` as sequences.
pub enum ActionView {
    Write(WriteView),
    Succeed(Seq<char>),
    Fail(ErrorView),
}

impl View for Action {
    type V = ActionView;

    open spec fn view(&self) -> ActionView {
        match *self {
            Action::Write(write) => ActionView::Write(write@),
            Action::Succeed(acknowledgment) => ActionView::Succeed(acknowledgment@),
            Action::Fail(e) => ActionView::Fail(e@),
        }
    }
}

/// The event is one that an invocation in `phase` waits for.
pub open spec fn awaited(phase: Phase, event: Event) -> bool {
    match phase {
        Phase::Querying => event is QueryAnswered || event is QueryFailed,
        Phase::Publishing => event is WriteAcknowledged || event is WriteFailed,
        Phase::Extracting | Phase::Finished => false,
    }
}

/// The phase in which an error arises: a failed query while querying, a
/// missing figure while extracting, a figure that is no number or a failed
/// write while publishing.
pub open spec fn phase_of(e: ErrorView) -> Phase {
    match e {
        ErrorView::Query(_) => Phase::Querying,
        ErrorView::MissingData(_) => Phase::Extracting,
        ErrorView::InvalidValue(_) => Phase::Publishing,
        ErrorView::Publish(_) => Phase::Publishing,
    }
}

/// The phase in which `e` arose.
pub fn failed_in(e: &BridgeError) -> (phase: Phase)
    ensures
        phase == phase_of(e@),
{
    match e {
        BridgeError::Query(_) => Phase::Querying,
        BridgeError::MissingData(_) => Phase::Extracting,
        BridgeError::InvalidValue(_) => Phase::Publishing,
        BridgeError::Publish(_) => Phase::Publishing,
    }
}

impl Phase {
    /// Whether an invocation in this phase waits for `event`.
    pub fn awaits(&self, event: &Event) -> (r: bool)
        ensures
            r == awaited(*self, *event),
    {
        match self {
            Phase::Querying => match event {
                Event::QueryAnswered(_) => true,
                Event::QueryFailed(_) => true,
                _ => false,
            },
            Phase::Publishing => match event {
                Event::WriteAcknowledged(_) => true,
                Event::WriteFailed(_) => true,
                _ => false,
            },
            Phase::Extracting => false,
            Phase::Finished => false,
        }
    }
}

/// What follows a query that was answered with `periods`: the write of the
/// last period's figure, or the failure to read or to accept that figure.
pub open spec fn after_answer(r: RequestView, periods: Seq<PeriodSummary>) -> ActionView {
    match extracted(periods) {
        Ok(value) => match write_of(r.namespace, r.metric_name, value, r) {
            Ok(write) => ActionView::Write(write),
            Err(e) => ActionView::Fail(e),
        },
        Err(e) => ActionView::Fail(e),
    }
}

/// What the caller is to do after `event`.
pub open spec fn next_action(r: RequestView, event: Event) -> ActionView {
    match event {
        Event::QueryAnswered(periods) => after_answer(r, periods@),
        Event::QueryFailed(detail) => ActionView::Fail(ErrorView::Query(detail@)),
        Event::WriteAcknowledged(acknowledgment) => ActionView::Succeed(acknowledgment@),
        Event::WriteFailed(detail) => ActionView::Fail(ErrorView::Publish(detail@)),
    }
}

/// The phase that an action leads to: a write is waited for, anything else
/// ends the invocation.
pub open spec fn phase_after(action: ActionView) -> Phase {
    match action {
        ActionView::Write(_) => Phase::Publishing,
        _ => Phase::Finished,
    }
}

/// Decides what follows the cost provider's answer: reads the last
/// period's figure and shapes the write for it.
pub fn on_query_answered(request: &InvocationRequest, periods: &Vec<PeriodSummary>) -> (action:
    Action)
    ensures
        action@ == after_answer(request@, periods@),
{
    match extract_percentage(periods) {
        Ok(value) => {
            let written = build_metric_write(
                request.namespace.clone(),
                request.metric_name.clone(),
                value,
                request,
            );
            match written {
                Ok(write) => Action::Write(write),
                Err(e) => Action::Fail(e),
            }
        },
        Err(e) => Action::Fail(e),
    }
}

/// One step of an invocation: from the phase it is in and the event it
/// waited for to the phase it enters and what the caller does next.
pub fn step(phase: Phase, request: &InvocationRequest, event: Event) -> (r: (Phase, Action))
    requires
        awaited(phase, event),
    ensures
        r.1@ == next_action(request@, event),
        r.0 == phase_after(r.1@),
{
    match event {
        Event::QueryAnswered(periods) => {
            let action = on_query_answered(request, &periods);
            match action {
                Action::Write(write) => (Phase::Publishing, Action::Write(write)),
                other => (Phase::Finished, other),
            }
        },
        Event::QueryFailed(detail) => (Phase::Finished, Action::Fail(BridgeError::Query(detail))),
        Event::WriteAcknowledged(acknowledgment) => (
            Phase::Finished,
            Action::Succeed(acknowledgment),
        ),
        Event::WriteFailed(detail) => (
            Phase::Finished,
            Action::Fail(BridgeError::Publish(detail)),
        ),
    }
}

/// A write is called for in one case only: the invocation was querying, the
/// query was answered, the last period carries a figure, and the figure
/// reads as a number. A failed query, a missing figure and a figure that is
/// no number each end the invocation with nothing written. Since a write is
/// never called for while publishing, an invocation writes at most once.
pub proof fn lemma_write_needs_figure(phase: Phase, r: RequestView, event: Event)
    requires
        awaited(phase, event),
    ensures
        next_action(r, event) is Write <==> (phase == Phase::Querying && event is QueryAnswered
            && extracted(event->QueryAnswered_0@) is Ok && is_float_text(
            extracted(event->QueryAnswered_0@)->Ok_0,
        )),
        event is QueryFailed ==> next_action(r, event) == ActionView::Fail(
            ErrorView::Query(event->QueryFailed_0@),
        ),
        next_action(r, event) matches ActionView::Fail(e) ==> (if phase == Phase::Querying {
            e is Query || e is MissingData || e is InvalidValue
        } else {
            e is Publish
        }),
        phase_after(next_action(r, event)) == Phase::Publishing <==> next_action(r, event) is Write,
        phase_after(next_action(r, event)) == Phase::Finished <==> !(next_action(r, event) is Write),
{
}

} // verus!
