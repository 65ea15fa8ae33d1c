//! The poller as a state machine. Its caller waits for ticks, sends the
//! requests and reports how they ended; the machine decides what is done
//! next.

use vstd::prelude::*;
use crate::aggregate::{aggregate, aggregate_spec, joined_failure};
use crate::clock::read_clock;
use crate::error::PollError;
use crate::price_type::PriceType;
use crate::quote::{price_request, price_request_spec, Quote, QuoteView};
use crate::request::{Request, RequestView};
use crate::sink::{check_status, InfluxConfig, InfluxConfigView, SUCCESS_STATUS};

verus! {

/// Where the poller stands. It runs in the first three phases and has
/// stopped for good in the last.
#[derive(Clone, Copy, Debug, PartialEq, Eq, Structural)]
pub enum Phase {
    /// Between ticks.
    Idle,
    /// The three quotes of a tick are asked for.
    Fetching,
    /// A line is on its way to the sink.
    Submitting,
    /// Stopped by a failure.
    Terminated(PollError),
}

/// What the caller reports to the machine.
#[derive(Clone, Debug)]
pub enum Event {
    /// The timer fired.
    Tick,
    /// All three requests of the tick have ended; `now` is the clock at
    /// that moment, in seconds since 1970-01-01 00:00:00 UTC.
    Quotes { buy: Quote, sell: Quote, spot: Quote, now: i64 },
    /// The sink answered the write with this status.
    SinkStatus(u16),
    /// The write failed in transit.
    SinkUnreachable,
}

/// What an `Event` holds, as mathematical values.
pub enum EventView {
    Tick,
    Quotes { buy: QuoteView, sell: QuoteView, spot: QuoteView, now: int },
    SinkStatus(u16),
    SinkUnreachable,
}

impl View for Event {
    type V = EventView;

    open spec fn view(&self) -> EventView {
        match self {
            Event::Tick => EventView::Tick,
            Event::Quotes { buy, sell, spot, now } => EventView::Quotes {
                buy: buy@,
                sell: sell@,
                spot: spot@,
                now: *now as int,
            },
            Event::SinkStatus(status) => EventView::SinkStatus(*status),
            Event::SinkUnreachable => EventView::SinkUnreachable,
        }
    }
}

/// What the machine asks its caller to do.
#[derive(Clone, Debug)]
pub enum Action {
    /// Send the three requests for quotes, all at once, and report together
    /// how they ended.
    Fetch { buy: Request, sell: Request, spot: Request },
    /// Write the line to standard output, then wait for the next tick.
    Print(String),
    /// Send the write to the sink and report how it ended.
    Post(Request),
    /// Nothing to do before the next report.
    Wait,
    /// Stop the process with this failure.
    Halt(PollError),
}

/// What an `Action` holds, as mathematical values.
pub enum ActionView {
    Fetch { buy: RequestView, sell: RequestView, spot: RequestView },
    Print(Seq<char>),
    Post(RequestView),
    Wait,
    Halt(PollError),
}

impl View for Action {
    type V = ActionView;

    open spec fn view(&self) -> ActionView {
        match self {
            Action::Fetch { buy, sell, spot } => ActionView::Fetch {
                buy: buy@,
                sell: sell@,
                spot: spot@,
            },
            Action::Print(line) => ActionView::Print(line@),
            Action::Post(request) => ActionView::Post(request@),
            Action::Wait => ActionView::Wait,
            Action::Halt(kind) => ActionView::Halt(*kind),
        }
    }
}

/// The poller: its settings, fixed at startup, and its phase.
#[derive(Clone, Debug)]
pub struct Poller {
    currency: String,
    dry_run: bool,
    sink: InfluxConfig,
    phase: Phase,
}

/// What a `Poller` holds, as mathematical values.
pub struct PollerView {
    pub currency: Seq<char>,
    pub dry_run: bool,
    pub sink: InfluxConfigView,
    pub phase: Phase,
}

impl View for Poller {
    type V = PollerView;

    closed spec fn view(&self) -> PollerView {
        PollerView {
            currency: self.currency@,
            dry_run: self.dry_run,
            sink: self.sink@,
            phase: self.phase,
        }
    }
}

impl PollerView {
    /// The same poller in another phase.
    pub open spec fn in_phase(self, phase: Phase) -> PollerView {
        PollerView { phase: phase, ..self }
    }

    /// The requests of one tick: one for each price type, all in the
    /// poller's currency.
    pub open spec fn fetch(self) -> ActionView {
        ActionView::Fetch {
            buy: price_request_spec(PriceType::Buy, self.currency),
            sell: price_request_spec(PriceType::Sell, self.currency),
            spot: price_request_spec(PriceType::Spot, self.currency),
        }
    }

    /// The poller stops with this failure.
    pub open spec fn halt(self, kind: PollError) -> (PollerView, ActionView) {
        (self.in_phase(Phase::Terminated(kind)), ActionView::Halt(kind))
    }

    /// One step of the machine: the phase after the event, and what the
    /// caller is to do.
    ///
    /// A tick starts the three requests. Their outcomes give a record or stop
    /// the poller; a record goes to standard output in a dry run and to the
    /// sink otherwise. The sink's answer lets the poller go on or stops it.
    /// A poller that has stopped answers every event by stopping again. An
    /// event that the phase does not wait for changes nothing.
    pub open spec fn step(self, event: EventView) -> (PollerView, ActionView) {
        match (self.phase, event) {
            (Phase::Terminated(kind), _) => (self, ActionView::Halt(kind)),
            (Phase::Idle, EventView::Tick) => (self.in_phase(Phase::Fetching), self.fetch()),
            (Phase::Fetching, EventView::Quotes { buy, sell, spot, now }) => {
                match aggregate_spec(self.currency, buy, sell, spot, now) {
                    Err(kind) => self.halt(kind),
                    Ok(record) => {
                        if self.dry_run {
                            (self.in_phase(Phase::Idle), ActionView::Print(record.line()))
                        } else {
                            (
                                self.in_phase(Phase::Submitting),
                                ActionView::Post(self.sink.write_request(record)),
                            )
                        }
                    },
                }
            },
            (Phase::Submitting, EventView::SinkStatus(status)) => {
                if status == SUCCESS_STATUS {
                    (self.in_phase(Phase::Idle), ActionView::Wait)
                } else {
                    self.halt(PollError::Submit { status })
                }
            },
            (Phase::Submitting, EventView::SinkUnreachable) => self.halt(PollError::Fetch),
            _ => (self, ActionView::Wait),
        }
    }

    /// The poller after a run of events, each answered by one step.
    pub open spec fn run(self, events: Seq<EventView>) -> PollerView
        decreases events.len(),
    {
        if events.len() == 0 {
            self
        } else {
            self.run(events.drop_last()).step(events.last()).0
        }
    }
}

impl Poller {
    /// A poller between ticks.
    pub fn new(currency: String, dry_run: bool, sink: InfluxConfig) -> (poller: Poller)
        ensures
            poller@ == (PollerView {
                currency: currency@,
                dry_run: dry_run,
                sink: sink@,
                phase: Phase::Idle,
            }),
    {
        Poller { currency, dry_run, sink, phase: Phase::Idle }
    }

    pub fn phase(&self) -> (phase: Phase)
        ensures
            phase == self@.phase,
    {
        self.phase
    }

    pub fn dry_run(&self) -> (dry_run: bool)
        ensures
            dry_run == self@.dry_run,
    {
        self.dry_run
    }

    pub fn currency(&self) -> (currency: &str)
        ensures
            currency@ == self@.currency,
    {
        self.currency.as_str()
    }

    pub fn sink(&self) -> (sink: &InfluxConfig)
        ensures
            sink@ == self@.sink,
    {
        &self.sink
    }

    /// Whether the poller has stopped for good.
    pub fn is_terminated(&self) -> (stopped: bool)
        ensures
            stopped == (self@.phase is Terminated),
    {
        match self.phase {
            Phase::Terminated(_) => true,
            _ => false,
        }
    }

    /// Stops the poller with this failure.
    fn halt(&mut self, kind: PollError) -> (action: Action)
        ensures
            (final(self)@, action@) == old(self)@.halt(kind),
    {
        self.phase = Phase::Terminated(kind);
        Action::Halt(kind)
    }

    /// Takes one event and says what to do next.
    pub fn step(&mut self, event: Event) -> (action: Action)
        ensures
            (final(self)@, action@) == old(self)@.step(event@),
    {
        match self.phase {
            Phase::Terminated(kind) => Action::Halt(kind),
            Phase::Idle => match event {
                Event::Tick => {
                    self.phase = Phase::Fetching;
                    Action::Fetch {
                        buy: price_request(PriceType::Buy, self.currency.as_str()),
                        sell: price_request(PriceType::Sell, self.currency.as_str()),
                        spot: price_request(PriceType::Spot, self.currency.as_str()),
                    }
                },
                _ => Action::Wait,
            },
            Phase::Fetching => match event {
                Event::Quotes { buy, sell, spot, now } => {
                    match aggregate(self.currency.as_str(), buy, sell, spot, now) {
                        Err(kind) => self.halt(kind),
                        Ok(record) => {
                            if self.dry_run {
                                self.phase = Phase::Idle;
                                Action::Print(record.to_line())
                            } else {
                                self.phase = Phase::Submitting;
                                Action::Post(self.sink.write_request(&record))
                            }
                        },
                    }
                },
                _ => Action::Wait,
            },
            Phase::Submitting => match event {
                Event::SinkStatus(status) => match check_status(status) {
                    Ok(()) => {
                        self.phase = Phase::Idle;
                        Action::Wait
                    },
                    Err(kind) => self.halt(kind),
                },
                Event::SinkUnreachable => self.halt(PollError::Fetch),
                _ => Action::Wait,
            },
        }
    }

    /// Takes the three outcomes of a tick, reads the clock, and steps with
    /// both. The clock is read once, here, after all three requests have
    /// ended. The step is that of `step` for the second that the clock
    /// showed; the clock decides the timestamp in the line and nothing else,
    /// so the phase after the step is that of `step` for any timestamp.
    pub fn quotes_arrived(&mut self, buy: Quote, sell: Quote, spot: Quote) -> (action: Action)
        ensures
            exists|now: i64| #[trigger]
                old(self)@.step(
                    EventView::Quotes { buy: buy@, sell: sell@, spot: spot@, now: now as int },
                ) == (final(self)@, action@),
            forall|now: int|
                final(self)@ == (#[trigger] old(self)@.step(
                    EventView::Quotes { buy: buy@, sell: sell@, spot: spot@, now: now },
                )).0,
    {
        let now = read_clock().unix_seconds;
        self.step(Event::Quotes { buy, sell, spot, now })
    }
}

/// A run of events changes the phase only: currency, mode and sink stay as
/// they were set at startup.
pub proof fn settings_are_fixed(s: PollerView, events: Seq<EventView>)
    ensures
        s.run(events) == s.in_phase(s.run(events).phase),
    decreases events.len(),
{
    if events.len() > 0 {
        settings_are_fixed(s, events.drop_last());
    }
}

/// The sink's success status lets the poller go on: it is between ticks
/// again, and nothing is left to do for this tick.
pub proof fn success_status_keeps_running(s: PollerView)
    requires
        s.phase == Phase::Submitting,
    ensures
        s.step(EventView::SinkStatus(SUCCESS_STATUS)) == (
            s.in_phase(Phase::Idle),
            ActionView::Wait,
        ),
{
}

/// Any other status stops the poller with a failure of the sink that
/// carries the status.
pub proof fn other_status_stops(s: PollerView, status: u16)
    requires
        s.phase == Phase::Submitting,
        status != SUCCESS_STATUS,
    ensures
        s.step(EventView::SinkStatus(status)) == s.halt(PollError::Submit { status }),
{
}

/// A poller that has stopped stays as it is whatever is reported to it, and
/// answers every report, a tick too, by stopping: it starts no request and
/// emits no line.
pub proof fn stopped_stays_stopped(s: PollerView, events: Seq<EventView>, event: EventView)
    requires
        s.phase is Terminated,
    ensures
        s.run(events) == s,
        s.run(events).step(event) == (s, ActionView::Halt(s.phase->Terminated_0)),
    decreases events.len(),
{
    if events.len() > 0 {
        stopped_stays_stopped(s, events.drop_last(), events.last());
    }
}

/// In a dry run nothing is ever sent to the sink, whatever was reported
/// before and whatever is reported now.
pub proof fn dry_run_never_posts(s: PollerView, events: Seq<EventView>, event: EventView)
    requires
        s.dry_run,
    ensures
        s.run(events).dry_run,
        !(s.run(events).step(event).1 is Post),
{
    settings_are_fixed(s, events);
}

/// In a dry run the record of a tick goes to standard output as its line,
/// and the poller is between ticks again.
pub proof fn dry_run_prints_the_line(
    s: PollerView,
    buy: Seq<char>,
    sell: Seq<char>,
    spot: Seq<char>,
    now: int,
)
    requires
        s.dry_run,
        s.phase == Phase::Fetching,
    ensures
        s.step(
            EventView::Quotes {
                buy: QuoteView::Amount(buy),
                sell: QuoteView::Amount(sell),
                spot: QuoteView::Amount(spot),
                now: now,
            },
        ) == (
            s.in_phase(Phase::Idle),
            ActionView::Print(
                aggregate_spec(
                    s.currency,
                    QuoteView::Amount(buy),
                    QuoteView::Amount(sell),
                    QuoteView::Amount(spot),
                    now,
                )->Ok_0.line(),
            ),
        ),
{
}

/// Outside a dry run nothing is ever written to standard output, and the
/// record of a tick goes to the sink as the body of one write.
pub proof fn live_run_posts_the_line(
    s: PollerView,
    events: Seq<EventView>,
    event: EventView,
    buy: Seq<char>,
    sell: Seq<char>,
    spot: Seq<char>,
    now: int,
)
    requires
        !s.dry_run,
    ensures
        !(s.run(events).step(event).1 is Print),
        s.phase == Phase::Fetching ==> s.step(
            EventView::Quotes {
                buy: QuoteView::Amount(buy),
                sell: QuoteView::Amount(sell),
                spot: QuoteView::Amount(spot),
                now: now,
            },
        ) == (
            s.in_phase(Phase::Submitting),
            ActionView::Post(
                s.sink.write_request(
                    aggregate_spec(
                        s.currency,
                        QuoteView::Amount(buy),
                        QuoteView::Amount(sell),
                        QuoteView::Amount(spot),
                        now,
                    )->Ok_0,
                ),
            ),
        ),
{
    settings_are_fixed(s, events);
}

/// A tick whose quotes fail emits nothing and stops the poller with the
/// failure of the join.
pub proof fn failed_tick_stops(
    s: PollerView,
    buy: QuoteView,
    sell: QuoteView,
    spot: QuoteView,
    now: int,
)
    requires
        s.phase == Phase::Fetching,
        !(buy is Amount && sell is Amount && spot is Amount),
    ensures
        joined_failure(buy, sell, spot) is Some,
        s.step(EventView::Quotes { buy, sell, spot, now }) == s.halt(
            joined_failure(buy, sell, spot)->Some_0,
        ),
{
}

/// A dry run never waits for the sink: from any phase but that one, no run
/// of events leads into it.
pub proof fn dry_run_never_submits(s: PollerView, events: Seq<EventView>)
    requires
        s.dry_run,
        s.phase != Phase::Submitting,
    ensures
        s.run(events).phase != Phase::Submitting,
    decreases events.len(),
{
    if events.len() > 0 {
        dry_run_never_submits(s, events.drop_last());
        settings_are_fixed(s, events.drop_last());
    }
}

/// Only a tick between ticks starts requests for quotes, so the requests of
/// two ticks never overlap; and only the three amounts of a tick give a
/// line, one line to one place.
pub proof fn one_line_for_one_tick(s: PollerView, event: EventView)
    ensures
        s.step(event).1 is Fetch <==> s.phase == Phase::Idle && event is Tick,
        s.step(event).1 is Fetch ==> s.step(event).0.phase == Phase::Fetching,
        s.step(event).1 is Post || s.step(event).1 is Print <==> s.phase == Phase::Fetching
            && event is Quotes && event->buy is Amount && event->sell is Amount
            && event->spot is Amount,
        s.step(event).1 is Post ==> !s.dry_run && s.step(event).0.phase == Phase::Submitting,
        s.step(event).1 is Print ==> s.dry_run && s.step(event).0.phase == Phase::Idle,
{
}

} // verus!
