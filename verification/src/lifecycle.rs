//! The life of one exchange, as a state machine.
//!
//! The interceptor itself performs no effect. The host that drives it reads
//! the clock, runs the rest of the pipeline and writes to the log sink; after
//! each of these it reports an [`Event`] to [`step`], which answers with the
//! next [`Phase`] and the [`Action`] to perform next.
//!
//! ```text
//! NotStarted --Received(on)------> Admitted        ReadClock
//! NotStarted --Received(off)-----> Emitted         Forward
//! Admitted ------Clock-----------> TimingStarted   CallDownstream
//! TimingStarted --Responded------> Formatted       Emit
//!                            or--> Aborted         Abort
//! Formatted -----Written---------> Emitted         Return
//! ```
//!
//! An event that the current phase does not wait for changes nothing and is
//! answered with [`Action::Ignore`].

use crate::config::LoggingMiddleware;
use crate::line::{
    format_line, line_error, line_text, LogError, RequestContext, RequestView, ResponseOutcome,
};
use crate::timestamp::{micros_between, Timestamp};
use vstd::prelude::*;

verus! {

/// How far an exchange has come.
#[derive(Clone, Copy, Debug, PartialEq, Eq, Structural)]
pub enum Phase {
    /// The request has not been received yet.
    NotStarted,
    /// Logging is enabled; the start time is being read.
    Admitted,
    /// The start time is taken and the rest of the pipeline is at work.
    TimingStarted { start: Timestamp },
    /// The line is assembled and on its way to the sink.
    Formatted,
    /// Nothing is left to write for this exchange: its line is written, or
    /// logging was disabled and it has none.
    Emitted,
    /// The line could not be assembled; nothing is written.
    Aborted,
}

/// What the host reports to the interceptor.
#[derive(Debug, PartialEq, Eq)]
pub enum Event {
    /// A request has arrived, and logging at the configured severity is
    /// `enabled` or not.
    Received { enabled: bool },
    /// The clock was read.
    Clock { now: Timestamp },
    /// The rest of the pipeline has produced its response. `finished` is
    /// the time at which it did, where the host was asked to take it; a
    /// response reported without the time that was asked for is not the
    /// event that the interceptor waits for.
    Responded { finished: Option<Timestamp>, request: RequestContext, response: ResponseOutcome },
    /// The sink has taken the line.
    Written,
}

/// What the interceptor asks of the host.
#[derive(Debug, PartialEq, Eq)]
pub enum Action {
    /// Read the clock and report [`Event::Clock`].
    ReadClock,
    /// Hand the request to the rest of the pipeline and report
    /// [`Event::Responded`] once its response is there; if `timed`, with the
    /// time read at that moment.
    CallDownstream { timed: bool },
    /// Hand the request to the rest of the pipeline and return whatever it
    /// returns. Nothing is timed, formatted or written.
    Forward,
    /// Write `line` to the sink at the configured severity and report
    /// [`Event::Written`].
    Emit { line: String },
    /// Give up on logging this exchange, for the reason given.
    Abort { error: LogError },
    /// Return the response of the pipeline as it is.
    Return,
    /// Nothing to do: the event was not the one waited for.
    Ignore,
}

/// An [`Event`] with its texts as sequences of characters.
pub enum EventView {
    Received { enabled: bool },
    Clock { now: Timestamp },
    Responded { finished: Option<Timestamp>, request: RequestView, response: ResponseOutcome },
    Written,
}

impl View for Event {
    type V = EventView;

    open spec fn view(&self) -> EventView {
        match *self {
            Event::Received { enabled } => EventView::Received { enabled },
            Event::Clock { now } => EventView::Clock { now },
            Event::Responded { finished, request, response } => EventView::Responded {
                finished,
                request: request@,
                response,
            },
            Event::Written => EventView::Written,
        }
    }
}

/// An [`Action`] with its line as a sequence of characters.
pub enum ActionView {
    ReadClock,
    CallDownstream { timed: bool },
    Forward,
    Emit { line: Seq<char> },
    Abort { error: LogError },
    Return,
    Ignore,
}

impl View for Action {
    type V = ActionView;

    open spec fn view(&self) -> ActionView {
        match *self {
            Action::ReadClock => ActionView::ReadClock,
            Action::CallDownstream { timed } => ActionView::CallDownstream { timed },
            Action::Forward => ActionView::Forward,
            Action::Emit { line } => ActionView::Emit { line: line@ },
            Action::Abort { error } => ActionView::Abort { error },
            Action::Return => ActionView::Return,
            Action::Ignore => ActionView::Ignore,
        }
    }
}

/// The latency that a line reports for a response that was `finished` at
/// the given time: none unless the configuration asks for it.
pub open spec fn measured(
    config: LoggingMiddleware,
    start: Timestamp,
    finished: Option<Timestamp>,
) -> Option<int> {
    match finished {
        Some(end) if config.include_duration() => Some(micros_between(start, end)),
        _ => None,
    }
}

/// The interceptor's answer to `event` in `phase`: the next phase and the
/// action asked of the host.
pub open spec fn transition(config: LoggingMiddleware, phase: Phase, event: EventView) -> (
    Phase,
    ActionView,
) {
    match (phase, event) {
        (Phase::NotStarted, EventView::Received { enabled }) => if enabled {
            (Phase::Admitted, ActionView::ReadClock)
        } else {
            (Phase::Emitted, ActionView::Forward)
        },
        (Phase::Admitted, EventView::Clock { now }) => (
            Phase::TimingStarted { start: now },
            ActionView::CallDownstream { timed: config.include_duration() },
        ),
        (
            Phase::TimingStarted { start },
            EventView::Responded { finished, request, response },
        ) => {
            if config.include_duration() && finished is None {
                (phase, ActionView::Ignore)
            } else {
                match line_error(request, response) {
                    Some(error) => (Phase::Aborted, ActionView::Abort { error }),
                    None => (
                        Phase::Formatted,
                        ActionView::Emit {
                            line: line_text(
                                start,
                                request,
                                response,
                                measured(config, start, finished),
                            ),
                        },
                    ),
                }
            }
        },
        (Phase::Formatted, EventView::Written) => (Phase::Emitted, ActionView::Return),
        _ => (phase, ActionView::Ignore),
    }
}

/// Takes one step of an exchange: given the phase it is in and what the
/// host reports, the phase it moves to and what the host is to do next.
pub fn step(config: &LoggingMiddleware, phase: Phase, event: Event) -> (next: (Phase, Action))
    ensures
        next.0 == transition(*config, phase, event@).0,
        next.1@ == transition(*config, phase, event@).1,
{
    match phase {
        Phase::NotStarted => match event {
            Event::Received { enabled } => if enabled {
                (Phase::Admitted, Action::ReadClock)
            } else {
                (Phase::Emitted, Action::Forward)
            },
            _ => (phase, Action::Ignore),
        },
        Phase::Admitted => match event {
            Event::Clock { now } => (
                Phase::TimingStarted { start: now },
                Action::CallDownstream { timed: config.include_duration() },
            ),
            _ => (phase, Action::Ignore),
        },
        Phase::TimingStarted { start } => match event {
            Event::Responded { finished, request, response } => {
                let elapsed = if config.include_duration() {
                    match finished {
                        Some(end) => Some(start.micros_until(&end)),
                        None => { return (phase, Action::Ignore); },
                    }
                } else {
                    None
                };
                match format_line(&start, &request, &response, elapsed) {
                    Ok(line) => (Phase::Formatted, Action::Emit { line }),
                    Err(error) => (Phase::Aborted, Action::Abort { error }),
                }
            },
            _ => (phase, Action::Ignore),
        },
        Phase::Formatted => match event {
            Event::Written => (Phase::Emitted, Action::Return),
            _ => (phase, Action::Ignore),
        },
        Phase::Emitted => (phase, Action::Ignore),
        Phase::Aborted => (phase, Action::Ignore),
    }
}

/// The phase that an exchange is in after the host has reported the first
/// `count` of `events`, starting from [`Phase::NotStarted`].
pub open spec fn phase_at(config: LoggingMiddleware, events: Seq<EventView>, count: nat) -> Phase
    decreases count,
{
    if count == 0 {
        Phase::NotStarted
    } else {
        transition(config, phase_at(config, events, (count - 1) as nat), events[count - 1]).0
    }
}

/// The action with which the interceptor answers the event at `index` of
/// `events`, after all the events before it.
pub open spec fn action_at(
    config: LoggingMiddleware,
    events: Seq<EventView>,
    index: int,
) -> ActionView {
    transition(config, phase_at(config, events, index as nat), events[index]).1
}

/// The events that a host reports for one exchange when logging is enabled
/// and it does as it is asked: arrival, the start time, the response, and the
/// sink's receipt of the line.
pub open spec fn enabled_exchange(
    start: Timestamp,
    finished: Option<Timestamp>,
    request: RequestView,
    response: ResponseOutcome,
) -> Seq<EventView> {
    seq![
        EventView::Received { enabled: true },
        EventView::Clock { now: start },
        EventView::Responded { finished, request, response },
        EventView::Written,
    ]
}

proof fn lemma_disabled_is_final(config: LoggingMiddleware, events: Seq<EventView>, count: nat)
    requires
        0 < count <= events.len(),
        events[0] == (EventView::Received { enabled: false }),
    ensures
        phase_at(config, events, count) == Phase::Emitted,
    decreases count,
{
    if count > 1 {
        lemma_disabled_is_final(config, events, (count - 1) as nat);
    } else {
        reveal_with_fuel(phase_at, 2);
    }
}

/// While logging is disabled nothing is logged: the request is forwarded to
/// the rest of the pipeline, whose response is returned as it is, and
/// whatever the host reports afterwards is answered with no action at all.
/// No clock is read and no line is written.
pub proof fn law_disabled_only_forwards(config: LoggingMiddleware, events: Seq<EventView>)
    requires
        events.len() > 0,
        events[0] == (EventView::Received { enabled: false }),
    ensures
        action_at(config, events, 0) == ActionView::Forward,
        forall|i: int| 0 < i < events.len() ==> action_at(config, events, i) == ActionView::Ignore,
{
    assert forall|i: int| 0 < i < events.len() implies action_at(config, events, i)
        == ActionView::Ignore by {
        lemma_disabled_is_final(config, events, i as nat);
    }
}

/// Among `events`, a request is received with logging enabled at index
/// `arrival`, and the rest of the pipeline is called in answer to the later
/// event at index `call`.
pub open spec fn called_while_enabled(
    config: LoggingMiddleware,
    events: Seq<EventView>,
    arrival: int,
    call: int,
) -> bool {
    &&& 0 <= arrival < call < events.len()
    &&& events[arrival] == (EventView::Received { enabled: true })
    &&& action_at(config, events, call) is CallDownstream
}

proof fn lemma_admitted_follows_arrival(config: LoggingMiddleware, events: Seq<EventView>, count: nat)
    requires
        count <= events.len(),
        phase_at(config, events, count) == Phase::Admitted,
    ensures
        exists|arrival: int|
            0 <= arrival < count && #[trigger] events[arrival] == (EventView::Received {
                enabled: true,
            }),
    decreases count,
{
    if phase_at(config, events, (count - 1) as nat) == Phase::Admitted {
        lemma_admitted_follows_arrival(config, events, (count - 1) as nat);
    }
}

proof fn lemma_timing_follows_call(config: LoggingMiddleware, events: Seq<EventView>, count: nat)
    requires
        count <= events.len(),
        phase_at(config, events, count) is TimingStarted,
    ensures
        exists|arrival: int, call: int|
            call < count && #[trigger] called_while_enabled(config, events, arrival, call),
    decreases count,
{
    if phase_at(config, events, (count - 1) as nat) is TimingStarted {
        lemma_timing_follows_call(config, events, (count - 1) as nat);
    } else {
        lemma_admitted_follows_arrival(config, events, (count - 1) as nat);
        let arrival = choose|arrival: int|
            0 <= arrival < count - 1 && #[trigger] events[arrival] == (EventView::Received {
                enabled: true,
            });
        assert(called_while_enabled(config, events, arrival, count - 1));
    }
}

proof fn lemma_formatted_stays_written(
    config: LoggingMiddleware,
    events: Seq<EventView>,
    from: nat,
    count: nat,
)
    requires
        from <= count <= events.len(),
        phase_at(config, events, from) == Phase::Formatted,
    ensures
        phase_at(config, events, count) == Phase::Formatted || phase_at(config, events, count)
            == Phase::Emitted,
    decreases count,
{
    if count > from {
        lemma_formatted_stays_written(config, events, from, (count - 1) as nat);
    }
}

/// A line is written only in answer to the response of the rest of the
/// pipeline, and only where a request was received with logging enabled and
/// the pipeline was called after that, before the response.
pub proof fn law_emit_follows_response(config: LoggingMiddleware, events: Seq<EventView>, index: int)
    requires
        0 <= index < events.len(),
        action_at(config, events, index) is Emit,
    ensures
        events[index] is Responded,
        exists|arrival: int, call: int|
            call < index && #[trigger] called_while_enabled(config, events, arrival, call),
{
    lemma_timing_follows_call(config, events, index as nat);
}

/// No exchange is logged twice: whatever the host reports, at most one of
/// the interceptor's answers asks for a line to be written.
pub proof fn law_emits_at_most_once(
    config: LoggingMiddleware,
    events: Seq<EventView>,
    first: int,
    second: int,
)
    requires
        0 <= first < second < events.len(),
    ensures
        !(action_at(config, events, first) is Emit && action_at(config, events, second) is Emit),
{
    if action_at(config, events, first) is Emit {
        lemma_formatted_stays_written(config, events, (first + 1) as nat, second as nat);
    }
}

/// While logging is enabled, an exchange whose address and content length are
/// known is logged exactly once, after the response: the host is asked to
/// read the clock, to call the rest of the pipeline, to write the line for
/// this exchange, and to return the response.
pub proof fn law_enabled_emits_once(
    config: LoggingMiddleware,
    start: Timestamp,
    finished: Option<Timestamp>,
    request: RequestView,
    response: ResponseOutcome,
)
    requires
        config.include_duration() ==> finished is Some,
        line_error(request, response) is None,
    ensures
        ({
            let events = enabled_exchange(start, finished, request, response);
            &&& action_at(config, events, 0) == ActionView::ReadClock
            &&& action_at(config, events, 1) == (ActionView::CallDownstream {
                timed: config.include_duration(),
            })
            &&& action_at(config, events, 2) == (ActionView::Emit {
                line: line_text(start, request, response, measured(config, start, finished)),
            })
            &&& action_at(config, events, 3) == ActionView::Return
            &&& phase_at(config, events, 4) == Phase::Emitted
        }),
{
    reveal_with_fuel(phase_at, 5);
}

/// Without the latency option, the line does not depend on any time taken
/// at the response: it is the line without a latency, whatever was measured.
pub proof fn law_duration_off_ignores_clock(
    config: LoggingMiddleware,
    start: Timestamp,
    finished: Option<Timestamp>,
    request: RequestView,
    response: ResponseOutcome,
)
    requires
        !config.include_duration(),
        line_error(request, response) is None,
    ensures
        transition(
            config,
            Phase::TimingStarted { start },
            EventView::Responded { finished, request, response },
        ) == (
            Phase::Formatted,
            ActionView::Emit { line: line_text(start, request, response, None) },
        ),
{
}

/// The events among the first `count` of `reports` that concern `exchange`,
/// where a host that serves several exchanges at once reports each event
/// together with the exchange it belongs to.
pub open spec fn events_of(reports: Seq<(int, EventView)>, exchange: int, count: nat) -> Seq<EventView>
    decreases count,
{
    if count == 0 {
        Seq::empty()
    } else {
        let earlier = events_of(reports, exchange, (count - 1) as nat);
        if reports[count - 1].0 == exchange {
            earlier.push(reports[count - 1].1)
        } else {
            earlier
        }
    }
}

/// The phase of `exchange` after the first `count` of `reports`, each of
/// which advances the one exchange it belongs to.
pub open spec fn shared_phase_at(
    config: LoggingMiddleware,
    reports: Seq<(int, EventView)>,
    exchange: int,
    count: nat,
) -> Phase
    decreases count,
{
    if count == 0 {
        Phase::NotStarted
    } else {
        let before = shared_phase_at(config, reports, exchange, (count - 1) as nat);
        if reports[count - 1].0 == exchange {
            transition(config, before, reports[count - 1].1).0
        } else {
            before
        }
    }
}

proof fn lemma_phase_ignores_later_events(
    config: LoggingMiddleware,
    events: Seq<EventView>,
    longer: Seq<EventView>,
    count: nat,
)
    requires
        count <= events.len() <= longer.len(),
        forall|i: int| 0 <= i < events.len() ==> longer[i] == events[i],
    ensures
        phase_at(config, longer, count) == phase_at(config, events, count),
    decreases count,
{
    if count > 0 {
        lemma_phase_ignores_later_events(config, events, longer, (count - 1) as nat);
    }
}

/// Exchanges in flight at the same time do not touch one another: however
/// the host's reports for them interleave, each exchange is in the phase,
/// with the start time, that it would have reached alone, and each report is
/// answered as it would have been alone.
pub proof fn law_exchanges_do_not_interfere(
    config: LoggingMiddleware,
    reports: Seq<(int, EventView)>,
    exchange: int,
    count: nat,
)
    requires
        count <= reports.len(),
    ensures
        shared_phase_at(config, reports, exchange, count) == phase_at(
            config,
            events_of(reports, exchange, count),
            events_of(reports, exchange, count).len(),
        ),
        count < reports.len() && reports[count as int].0 == exchange ==> transition(
            config,
            shared_phase_at(config, reports, exchange, count),
            reports[count as int].1,
        ).1 == action_at(
            config,
            events_of(reports, exchange, count + 1),
            events_of(reports, exchange, count).len() as int,
        ),
    decreases count,
{
    let own = events_of(reports, exchange, count);
    if count > 0 {
        law_exchanges_do_not_interfere(config, reports, exchange, (count - 1) as nat);
        let earlier = events_of(reports, exchange, (count - 1) as nat);
        if reports[count - 1].0 == exchange {
            lemma_phase_ignores_later_events(config, earlier, own, earlier.len());
        }
    }
    if count < reports.len() && reports[count as int].0 == exchange {
        let longer = events_of(reports, exchange, count + 1);
        lemma_phase_ignores_later_events(config, own, longer, own.len());
    }
}

} // verus!
