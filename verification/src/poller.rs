//! The poll cycle controller: which step follows which.
//!
//! The controller does no waiting, fetching or sending itself. It names the
//! next thing to do, as an [`Action`]; whoever drives it does that and hands
//! back what came of it, as an [`Event`]. One iteration runs: read the
//! clock, wait, fetch, read the body, and send one message for each question
//! of the batch.

use vstd::prelude::*;
use crate::classify::{
    body_plan, classify, outcome_report, spec_body_plan, spec_classify, spec_outcome_report, Body,
    BodyPlan, BodyView, PollOutcome, PollOutcomeView, Reply, ReplyView,
};
use crate::dispatch::{
    delivery_failure, notification_for, processing_trace, spec_delivery_failure,
    spec_notification, spec_processing_trace, Notification, NotificationView,
};
use crate::model::{questions_view, Question, QuestionView};
use crate::query::{get_url, key_view, spec_url};
use crate::report::{reports_view, Context, Report, ReportView, Severity};
use crate::window::{next_window, PollState};

verus! {

/// What a poller is set up with.
#[derive(Debug, Clone, PartialEq, Eq)]
pub struct Config {
    /// Seconds between two polls, and the length of each window.
    pub interval: u64,
    /// The tag that the questions must carry.
    pub tag: String,
    /// The most questions that one poll asks for.
    pub max_items: u8,
    /// The API key, if there is one.
    pub key: Option<String>,
}

/// A [`Config`] as a mathematical value.
pub struct ConfigView {
    pub interval: u64,
    pub tag: Seq<char>,
    pub max_items: u8,
    pub key: Option<Seq<char>>,
}

impl View for Config {
    type V = ConfigView;

    open spec fn view(&self) -> ConfigView {
        ConfigView {
            interval: self.interval,
            tag: self.tag@,
            max_items: self.max_items,
            key: key_view(self.key),
        }
    }
}

/// What the driver did, and what came of it.
#[derive(Debug, Clone, PartialEq, Eq)]
pub enum Event {
    /// The clock was read: `now` seconds since the Unix epoch.
    Clock { now: u64 },
    /// The wait is over.
    Slept,
    /// The fetch got no answer.
    Unreachable { cause: String },
    /// The fetch got an answer with this status.
    Status { code: u16 },
    /// The answer's body was read.
    Body(Body),
    /// The message was sent.
    Sent,
    /// The message could not be sent.
    SendFailed { cause: String },
}

/// An [`Event`] as a mathematical value.
pub enum EventView {
    Clock { now: u64 },
    Slept,
    Unreachable { cause: Seq<char> },
    Status { code: u16 },
    Body(BodyView),
    Sent,
    SendFailed { cause: Seq<char> },
}

impl View for Event {
    type V = EventView;

    open spec fn view(&self) -> EventView {
        match *self {
            Event::Clock { now } => EventView::Clock { now },
            Event::Slept => EventView::Slept,
            Event::Unreachable { cause } => EventView::Unreachable { cause: cause@ },
            Event::Status { code } => EventView::Status { code },
            Event::Body(body) => EventView::Body(body@),
            Event::Sent => EventView::Sent,
            Event::SendFailed { cause } => EventView::SendFailed { cause: cause@ },
        }
    }
}

/// What the driver is to do next.
#[derive(Debug, Clone, PartialEq, Eq)]
pub enum Action {
    /// Read the clock; answer with [`Event::Clock`].
    ReadClock,
    /// Wait; answer with [`Event::Slept`].
    Sleep { seconds: u64 },
    /// Get this URL; answer with [`Event::Status`] or
    /// [`Event::Unreachable`].
    Fetch { url: String },
    /// Decode the answer's body into a batch; answer with [`Event::Body`],
    /// decoded or undecodable.
    Decode,
    /// Read the answer's body as text; answer with [`Event::Body`], text or
    /// unreadable.
    ReadText,
    /// Send this message; answer with [`Event::Sent`] or
    /// [`Event::SendFailed`].
    Send { message: Notification },
}

/// An [`Action`] as a mathematical value.
pub enum ActionView {
    ReadClock,
    Sleep { seconds: u64 },
    Fetch { url: Seq<char> },
    Decode,
    ReadText,
    Send { message: NotificationView },
}

impl View for Action {
    type V = ActionView;

    open spec fn view(&self) -> ActionView {
        match *self {
            Action::ReadClock => ActionView::ReadClock,
            Action::Sleep { seconds } => ActionView::Sleep { seconds },
            Action::Fetch { url } => ActionView::Fetch { url: url@ },
            Action::Decode => ActionView::Decode,
            Action::ReadText => ActionView::ReadText,
            Action::Send { message } => ActionView::Send { message: message@ },
        }
    }
}

/// What one step of the controller asks of the driver: the reports to hand
/// to the telemetry sink, in order, and then the action to perform.
#[derive(Debug, Clone, PartialEq, Eq)]
pub struct Step {
    pub reports: Vec<Report>,
    pub action: Action,
}

/// A [`Step`] as a mathematical value.
pub struct StepView {
    pub reports: Seq<ReportView>,
    pub action: ActionView,
}

impl View for Step {
    type V = StepView;

    open spec fn view(&self) -> StepView {
        StepView { reports: reports_view(self.reports@), action: self.action@ }
    }
}

/// Where in an iteration the controller stands: what it waits to hear of.
enum Phase {
    Idle,
    Waiting { url: String },
    Fetching { url: String },
    AwaitingBody { url: String, status: u16 },
    Dispatching { items: Vec<Question>, next: usize },
}

/// Where in an iteration a poller stands, as a mathematical value.
pub enum PhaseView {
    /// Between iterations: the clock is being read.
    Idle,
    /// The window is made; the wait is running.
    Waiting { url: Seq<char> },
    /// The request is under way.
    Fetching { url: Seq<char> },
    /// An answer with this status arrived; its body is being read.
    AwaitingBody { url: Seq<char>, status: u16 },
    /// The message for the question at `next` is being sent; those before
    /// it are done.
    Dispatching { items: Seq<QuestionView>, next: int },
}

impl View for Phase {
    type V = PhaseView;

    closed spec fn view(&self) -> PhaseView {
        match *self {
            Phase::Idle => PhaseView::Idle,
            Phase::Waiting { url } => PhaseView::Waiting { url: url@ },
            Phase::Fetching { url } => PhaseView::Fetching { url: url@ },
            Phase::AwaitingBody { url, status } => PhaseView::AwaitingBody { url: url@, status },
            Phase::Dispatching { items, next } => PhaseView::Dispatching {
                items: questions_view(items@),
                next: next as int,
            },
        }
    }
}

/// The poll cycle controller.
pub struct Poller {
    config: Config,
    state: PollState,
    phase: Phase,
}

/// A [`Poller`] as a mathematical value.
pub struct PollerView {
    pub config: ConfigView,
    pub state: PollState,
    pub phase: PhaseView,
}

impl View for Poller {
    type V = PollerView;

    closed spec fn view(&self) -> PollerView {
        PollerView { config: self.config@, state: self.state, phase: self.phase@ }
    }
}

/// The action that reads a body as the plan for its status says.
pub open spec fn spec_body_action(status: u16) -> ActionView {
    match spec_body_plan(status) {
        BodyPlan::Decode => ActionView::Decode,
        BodyPlan::ReadText => ActionView::ReadText,
    }
}

impl PollerView {
    /// A poller that dispatches has a question left to send.
    pub open spec fn well_formed(self) -> bool {
        self.phase matches PhaseView::Dispatching { items, next } ==> 0 <= next < items.len()
    }

    /// A poller that has done nothing yet.
    pub open spec fn fresh(config: ConfigView) -> PollerView {
        PollerView { config, state: PollState::spec_new(), phase: PhaseView::Idle }
    }

    /// Whether the poller can take the event: a clock reading that begins
    /// an iteration must leave room for the window's end and for the count
    /// of iterations. Every other event can be taken.
    pub open spec fn accepts(self, event: EventView) -> bool {
        self.phase is Idle ==> (event matches EventView::Clock { now } ==> now
            + self.config.interval <= u64::MAX && self.state.iteration_count < u64::MAX)
    }

    /// The action that the poller waits to hear of.
    pub open spec fn pending(self) -> ActionView {
        match self.phase {
            PhaseView::Idle => ActionView::ReadClock,
            PhaseView::Waiting { url } => ActionView::Sleep { seconds: self.config.interval },
            PhaseView::Fetching { url } => ActionView::Fetch { url },
            PhaseView::AwaitingBody { url, status } => spec_body_action(status),
            PhaseView::Dispatching { items, next } => ActionView::Send {
                message: spec_notification(items[next]),
            },
        }
    }

    /// The poller in another phase.
    pub open spec fn in_phase(self, phase: PhaseView) -> PollerView {
        PollerView { config: self.config, state: self.state, phase }
    }

    /// An event that the poller does not wait for changes nothing: the
    /// pending action is asked for again.
    pub open spec fn stay(self) -> (PollerView, StepView) {
        (self, StepView { reports: Seq::empty(), action: self.pending() })
    }

    /// An iteration begins at clock reading `now`: the window is made, the
    /// watermark moves to its end, the iteration is counted, the query for
    /// the window is built and traced, and the wait is asked for.
    pub open spec fn begin(self, now: u64) -> (PollerView, StepView) {
        let window = self.state.spec_window(now, self.config.interval);
        let advanced = self.state.spec_advance(now, self.config.interval);
        let count = (advanced.iteration_count + 1) as u64;
        let url = spec_url(
            window.from,
            window.to,
            self.config.tag,
            self.config.max_items,
            self.config.key,
        );
        (
            PollerView {
                config: self.config,
                state: PollState {
                    last_window_end: advanced.last_window_end,
                    iteration_count: count,
                },
                phase: PhaseView::Waiting { url },
            },
            StepView {
                reports: seq![
                    ReportView {
                        severity: Severity::Trace,
                        message: url,
                        context: Context::Iteration { from: window.from, to: window.to, count },
                    },
                ],
                action: ActionView::Sleep { seconds: self.config.interval },
            },
        )
    }

    /// The questions from index `k` on are to be sent, after `reports` have
    /// been handed on. If there is one at `k`, its trace is left and its
    /// message is sent; if not, the iteration is over.
    pub open spec fn proceed(self, items: Seq<QuestionView>, k: int, reports: Seq<ReportView>) -> (
        PollerView,
        StepView,
    ) {
        if 0 <= k < items.len() {
            (
                self.in_phase(PhaseView::Dispatching { items, next: k }),
                StepView {
                    reports: reports.push(spec_processing_trace(items[k])),
                    action: ActionView::Send { message: spec_notification(items[k]) },
                },
            )
        } else {
            (self.in_phase(PhaseView::Idle), StepView { reports, action: ActionView::ReadClock })
        }
    }

    /// The request for `url` came to `outcome`. A batch is dispatched from
    /// its first question on, in the order it came in. Any other outcome is
    /// reported and ends the iteration; the watermark stays where it is.
    pub open spec fn resolve(self, url: Seq<char>, outcome: PollOutcomeView) -> (
        PollerView,
        StepView,
    ) {
        match outcome {
            PollOutcomeView::Success(batch) => self.proceed(batch.items, 0, Seq::empty()),
            _ => (
                self.in_phase(PhaseView::Idle),
                StepView {
                    reports: seq![spec_outcome_report(outcome, url).unwrap()],
                    action: ActionView::ReadClock,
                },
            ),
        }
    }

    /// The poller and what it asks for after an event.
    pub open spec fn step(self, event: EventView) -> (PollerView, StepView) {
        match self.phase {
            PhaseView::Idle => match event {
                EventView::Clock { now } => self.begin(now),
                _ => self.stay(),
            },
            PhaseView::Waiting { url } => match event {
                EventView::Slept => (
                    self.in_phase(PhaseView::Fetching { url }),
                    StepView { reports: Seq::empty(), action: ActionView::Fetch { url } },
                ),
                _ => self.stay(),
            },
            PhaseView::Fetching { url } => match event {
                EventView::Unreachable { cause } => self.resolve(
                    url,
                    spec_classify(ReplyView::Unreachable { cause }),
                ),
                EventView::Status { code } => (
                    self.in_phase(PhaseView::AwaitingBody { url, status: code }),
                    StepView { reports: Seq::empty(), action: spec_body_action(code) },
                ),
                _ => self.stay(),
            },
            PhaseView::AwaitingBody { url, status } => match event {
                EventView::Body(body) => if body.answers(status) {
                    self.resolve(url, spec_classify(ReplyView::Answered { status, body }))
                } else {
                    self.stay()
                },
                _ => self.stay(),
            },
            PhaseView::Dispatching { items, next } => match event {
                EventView::Sent => self.proceed(items, next + 1, Seq::empty()),
                EventView::SendFailed { cause } => self.proceed(
                    items,
                    next + 1,
                    seq![spec_delivery_failure(items[next], cause)],
                ),
                _ => self.stay(),
            },
        }
    }
}

fn body_action(status: u16) -> (action: Action)
    ensures
        action@ == spec_body_action(status),
{
    match body_plan(status) {
        BodyPlan::Decode => Action::Decode,
        BodyPlan::ReadText => Action::ReadText,
    }
}

fn no_reports() -> (reports: Vec<Report>)
    ensures
        reports_view(reports@) == Seq::<ReportView>::empty(),
{
    let reports = Vec::new();
    assert(reports_view(reports@) =~= Seq::<ReportView>::empty());
    reports
}

fn one_report(report: Report) -> (reports: Vec<Report>)
    ensures
        reports_view(reports@) == seq![report@],
{
    let mut reports = Vec::new();
    reports.push(report);
    assert(reports_view(reports@) =~= seq![report@]);
    reports
}

impl Poller {
    #[verifier::type_invariant]
    spec fn holds_a_question_while_dispatching(self) -> bool {
        self@.well_formed()
    }

    /// A poller that has done nothing yet: it waits for the clock.
    pub fn new(config: Config) -> (poller: Poller)
        ensures
            poller@ == PollerView::fresh(config@),
            poller@.well_formed(),
    {
        Poller { config, state: PollState::new(), phase: Phase::Idle }
    }

    /// The watermark and the count of iterations.
    pub fn state(&self) -> (state: PollState)
        ensures
            state == self@.state,
    {
        self.state
    }

    /// Tells whether the poller can take the event.
    pub fn accepts(&self, event: &Event) -> (ok: bool)
        ensures
            ok == self@.accepts(event@),
    {
        match self.phase {
            Phase::Idle => match event {
                Event::Clock { now } => *now <= u64::MAX - self.config.interval
                    && self.state.iteration_count < u64::MAX,
                _ => true,
            },
            _ => true,
        }
    }

    /// The action that the poller waits to hear of.
    pub fn pending(&self) -> (action: Action)
        ensures
            action@ == self@.pending(),
    {
        proof {
            use_type_invariant(self);
        }
        match &self.phase {
            Phase::Idle => Action::ReadClock,
            Phase::Waiting { url } => Action::Sleep { seconds: self.config.interval },
            Phase::Fetching { url } => Action::Fetch { url: url.clone() },
            Phase::AwaitingBody { url, status } => body_action(*status),
            Phase::Dispatching { items, next } => Action::Send {
                message: notification_for(&items[*next]),
            },
        }
    }

    fn stay(self) -> (next: (Poller, Step))
        ensures
            next.0@.well_formed(),
            next.0@ == self@.stay().0,
            next.1@ == self@.stay().1,
    {
        proof {
            use_type_invariant(&self);
        }
        let action = self.pending();
        (self, Step { reports: no_reports(), action })
    }

    fn proceed(config: Config, state: PollState, items: Vec<Question>, k: usize, reports: Vec<
        Report,
    >) -> (next: (Poller, Step))
        ensures
            next.0@.well_formed(),
            next.0@ == (PollerView { config: config@, state, phase: PhaseView::Idle }).proceed(
                questions_view(items@),
                k as int,
                reports_view(reports@),
            ).0,
            next.1@ == (PollerView { config: config@, state, phase: PhaseView::Idle }).proceed(
                questions_view(items@),
                k as int,
                reports_view(reports@),
            ).1,
    {
        let mut reports = reports;
        if k < items.len() {
            let ghost before = reports_view(reports@);
            let trace = processing_trace(&items[k]);
            let message = notification_for(&items[k]);
            reports.push(trace);
            assert(reports_view(reports@) =~= before.push(trace@));
            (
                Poller { config, state, phase: Phase::Dispatching { items, next: k } },
                Step { reports, action: Action::Send { message } },
            )
        } else {
            (Poller { config, state, phase: Phase::Idle }, Step { reports, action: Action::ReadClock })
        }
    }

    fn resolve(config: Config, state: PollState, url: String, outcome: PollOutcome) -> (next: (
        Poller,
        Step,
    ))
        ensures
            next.0@.well_formed(),
            next.0@ == (PollerView { config: config@, state, phase: PhaseView::Idle }).resolve(
                url@,
                outcome@,
            ).0,
            next.1@ == (PollerView { config: config@, state, phase: PhaseView::Idle }).resolve(
                url@,
                outcome@,
            ).1,
    {
        let report = outcome_report(&outcome, url.as_str());
        match outcome {
            PollOutcome::Success(batch) => Poller::proceed(
                config,
                state,
                batch.items,
                0,
                no_reports(),
            ),
            _ => {
                let reports = one_report(report.unwrap());
                (
                    Poller { config, state, phase: Phase::Idle },
                    Step { reports, action: Action::ReadClock },
                )
            },
        }
    }

    /// Takes an event and says what to do next.
    ///
    /// An event that the poller does not wait for is passed over: the poller
    /// stays as it is and asks again for the action that is pending.
    pub fn step(self, event: Event) -> (next: (Poller, Step))
        requires
            self@.accepts(event@),
        ensures
            self@.well_formed(),
            next.0@.well_formed(),
            next.0@ == self@.step(event@).0,
            next.1@ == self@.step(event@).1,
    {
        proof {
            use_type_invariant(&self);
        }
        let Poller { config, state, phase } = self;
        match (phase, event) {
            (Phase::Idle, Event::Clock { now }) => {
                let (window, advanced) = next_window(state, now, config.interval);
                let url = get_url(
                    window.from,
                    window.to,
                    config.tag.as_str(),
                    config.max_items,
                    &config.key,
                );
                let count = advanced.iteration_count + 1;
                let state = PollState {
                    last_window_end: advanced.last_window_end,
                    iteration_count: count,
                };
                let trace = Report {
                    severity: Severity::Trace,
                    message: url.clone(),
                    context: Context::Iteration { from: window.from, to: window.to, count },
                };
                let seconds = config.interval;
                (
                    Poller { config, state, phase: Phase::Waiting { url } },
                    Step { reports: one_report(trace), action: Action::Sleep { seconds } },
                )
            },
            (Phase::Waiting { url }, Event::Slept) => {
                let fetch = url.clone();
                (
                    Poller { config, state, phase: Phase::Fetching { url } },
                    Step { reports: no_reports(), action: Action::Fetch { url: fetch } },
                )
            },
            (Phase::Fetching { url }, Event::Status { code }) => (
                Poller { config, state, phase: Phase::AwaitingBody { url, status: code } },
                Step { reports: no_reports(), action: body_action(code) },
            ),
            (Phase::Fetching { url }, Event::Unreachable { cause }) => {
                let outcome = classify(Reply::Unreachable { cause });
                Poller::resolve(config, state, url, outcome)
            },
            (Phase::AwaitingBody { url, status }, Event::Body(body)) => {
                if body.answers(status) {
                    let outcome = classify(Reply::Answered { status, body });
                    Poller::resolve(config, state, url, outcome)
                } else {
                    (Poller { config, state, phase: Phase::AwaitingBody { url, status } }).stay()
                }
            },
            (Phase::Dispatching { items, next }, Event::Sent) => {
                assert(next < items.len());
                Poller::proceed(config, state, items, next + 1, no_reports())
            },
            (Phase::Dispatching { items, next }, Event::SendFailed { cause }) => {
                assert(next < items.len());
                let failure = delivery_failure(&items[next], cause.as_str());
                Poller::proceed(config, state, items, next + 1, one_report(failure))
            },
            (phase, _) => (Poller { config, state, phase }).stay(),
        }
    }
}

} // verus!
