//! The polling coordinator: what one poll yields and how it is handed on.

use vstd::prelude::*;
use vstd::string::StringExecFns;

use crate::responses::{GetInfo, ListFunds, Peer};

verus! {

/// Everything one successful poll of the node brings back.
#[derive(Debug, Clone, PartialEq, Eq)]
pub struct LightningMetrics {
    pub getinfo: GetInfo,
    pub listfunds: ListFunds,
    pub listpeers: Vec<Peer>,
    pub num_nodes: u64,
    pub num_channels: u64,
}

impl LightningMetrics {
    /// Puts together what the calls of one poll brought back. Of the nodes and
    /// channels of the network only their numbers are kept.
    pub fn from_replies(
        getinfo: GetInfo,
        listfunds: ListFunds,
        listpeers: Vec<Peer>,
        nodes: usize,
        channels: usize,
    ) -> (metrics: Self)
        ensures
            metrics == (LightningMetrics {
                getinfo,
                listfunds,
                listpeers,
                num_nodes: nodes as u64,
                num_channels: channels as u64,
            }),
    {
        LightningMetrics {
            getinfo,
            listfunds,
            listpeers,
            num_nodes: nodes as u64,
            num_channels: channels as u64,
        }
    }
}

/// Why a poll handed out no metrics. The details stay in the log so that they
/// cannot leak into what a scraper is sent.
#[derive(Debug, Clone, Copy, PartialEq, Eq, Structural)]
pub enum Error {
    /// Talking to the lightning daemon failed: the target is down.
    RpcError,
    /// The coordinator itself is broken: an internal server error.
    FatalError,
}

impl Error {
    /// The text shown for each kind of failure.
    pub open spec fn spec_message(&self) -> Seq<char> {
        match self {
            Error::RpcError => "RPC Error"@,
            Error::FatalError => "Fatal Error"@,
        }
    }

    /// Renders the failure as text.
    pub fn message(&self) -> (s: String)
        ensures
            s@ == self.spec_message(),
    {
        match self {
            Error::RpcError => String::from_str("RPC Error"),
            Error::FatalError => String::from_str("Fatal Error"),
        }
    }
}

/// What a poll cycle publishes, and what a subscriber is handed.
pub type Outcome = Result<LightningMetrics, Error>;

/// How many publications a distribution channel keeps for subscribers that
/// have not read them yet. A subscriber that falls further behind is told that
/// it lagged.
pub const CHANNEL_DEPTH: usize = 1;

/// How often a subscriber waits for a publication before it gives up: the
/// first wait and the retries after a lag, together.
pub const MAX_ATTEMPTS: u32 = 3;

/// Where one receive stands.
#[derive(Debug, Clone, Copy, PartialEq, Eq, Structural)]
pub enum RecvStage {
    /// Nothing has been asked for yet.
    Idle,
    /// Registering on the distribution channel.
    Subscribing,
    /// Registered; raising the demand signal.
    Signalling,
    /// Waiting for a publication, after `lags` lags.
    Waiting { lags: u32 },
    /// The receive has returned.
    Done,
}

/// What happened to a subscriber since its last action.
#[derive(Debug, PartialEq, Eq)]
pub enum RecvEvent {
    /// A receive was asked for.
    Called,
    /// The subscription is registered on the distribution channel.
    Subscribed,
    /// The demand signal is raised.
    Signalled,
    /// The subscription yielded a publication.
    Published(Outcome),
    /// The subscription missed at least one publication and was moved on to
    /// the oldest one still kept.
    Lagged,
    /// The distribution channel is closed for good.
    Closed,
}

/// What the owner of the subscription is to do next.
#[derive(Debug, PartialEq, Eq)]
pub enum RecvAction {
    /// Register on the distribution channel.
    Subscribe,
    /// Raise the demand signal.
    Signal,
    /// Wait for what the subscription yields next.
    Await,
    /// The receive is over, with this outcome.
    Return(Outcome),
}

/// One receive: from the request for metrics to the outcome handed back.
#[derive(Debug)]
pub struct Subscriber {
    stage: RecvStage,
}

impl View for Subscriber {
    type V = RecvStage;

    closed spec fn view(&self) -> RecvStage {
        self.stage
    }
}

/// The stage after `event` and the action a subscriber answers with. `None`
/// means that the event does not belong to the stage; the stage is then kept.
///
/// The subscription is registered before demand is raised. A publication is
/// handed back as it is. A closed channel is fatal. A lag is answered by
/// another wait, unless it was the last of [`MAX_ATTEMPTS`]: then it is fatal
/// too.
pub open spec fn recv_step(stage: RecvStage, event: RecvEvent) -> (RecvStage, Option<RecvAction>) {
    match (stage, event) {
        (RecvStage::Idle, RecvEvent::Called) => (
            RecvStage::Subscribing,
            Some(RecvAction::Subscribe),
        ),
        (RecvStage::Subscribing, RecvEvent::Subscribed) => (
            RecvStage::Signalling,
            Some(RecvAction::Signal),
        ),
        (RecvStage::Signalling, RecvEvent::Signalled) => (
            RecvStage::Waiting { lags: 0 },
            Some(RecvAction::Await),
        ),
        (RecvStage::Waiting { .. }, RecvEvent::Published(outcome)) => (
            RecvStage::Done,
            Some(RecvAction::Return(outcome)),
        ),
        (RecvStage::Waiting { .. }, RecvEvent::Closed) => (
            RecvStage::Done,
            Some(RecvAction::Return(Err(Error::FatalError))),
        ),
        (RecvStage::Waiting { lags }, RecvEvent::Lagged) => {
            if lags >= MAX_ATTEMPTS - 1 {
                (RecvStage::Done, Some(RecvAction::Return(Err(Error::FatalError))))
            } else {
                (RecvStage::Waiting { lags: (lags + 1) as u32 }, Some(RecvAction::Await))
            }
        },
        _ => (stage, None),
    }
}

impl Subscriber {
    /// A subscriber that has not been asked for anything yet.
    pub fn new() -> (subscriber: Self)
        ensures
            subscriber@ == RecvStage::Idle,
    {
        Subscriber { stage: RecvStage::Idle }
    }

    /// Takes in what happened and says what to do next.
    pub fn step(&mut self, event: RecvEvent) -> (action: Option<RecvAction>)
        ensures
            (final(self)@, action) == recv_step(old(self)@, event),
    {
        match (self.stage, event) {
            (RecvStage::Idle, RecvEvent::Called) => {
                self.stage = RecvStage::Subscribing;
                Some(RecvAction::Subscribe)
            },
            (RecvStage::Subscribing, RecvEvent::Subscribed) => {
                self.stage = RecvStage::Signalling;
                Some(RecvAction::Signal)
            },
            (RecvStage::Signalling, RecvEvent::Signalled) => {
                self.stage = RecvStage::Waiting { lags: 0 };
                Some(RecvAction::Await)
            },
            (RecvStage::Waiting { .. }, RecvEvent::Published(outcome)) => {
                self.stage = RecvStage::Done;
                Some(RecvAction::Return(outcome))
            },
            (RecvStage::Waiting { .. }, RecvEvent::Closed) => {
                self.stage = RecvStage::Done;
                Some(RecvAction::Return(Err(Error::FatalError)))
            },
            (RecvStage::Waiting { lags }, RecvEvent::Lagged) => {
                if lags >= MAX_ATTEMPTS - 1 {
                    self.stage = RecvStage::Done;
                    Some(RecvAction::Return(Err(Error::FatalError)))
                } else {
                    self.stage = RecvStage::Waiting { lags: lags + 1 };
                    Some(RecvAction::Await)
                }
            },
            _ => None,
        }
    }
}

/// The stage that a run of events leaves a subscriber in, and the action that
/// answered the last of them.
pub open spec fn recv_run(stage: RecvStage, events: Seq<RecvEvent>) -> (
    RecvStage,
    Option<RecvAction>,
)
    decreases events.len(),
{
    if events.len() == 0 {
        (stage, None)
    } else {
        recv_step(recv_run(stage, events.drop_last()).0, events.last())
    }
}

/// `n` lags in a row.
pub open spec fn lags(n: nat) -> Seq<RecvEvent> {
    Seq::new(n, |i: int| RecvEvent::Lagged)
}

/// Subscribers that wait when an outcome is published all return that very
/// outcome, however often each of them has lagged before.
pub proof fn lemma_waiters_return_the_publication(waiters: Seq<RecvStage>, outcome: Outcome)
    requires
        forall|i: int| 0 <= i < waiters.len() ==> waiters[i] is Waiting,
    ensures
        forall|i: int|
            0 <= i < waiters.len() ==> recv_step(
                #[trigger] waiters[i],
                RecvEvent::Published(outcome),
            ) == (RecvStage::Done, Some(RecvAction::Return(outcome))),
        forall|i: int, j: int|
            0 <= i < waiters.len() && 0 <= j < waiters.len() ==> recv_step(
                #[trigger] waiters[i],
                RecvEvent::Published(outcome),
            ).1 == recv_step(#[trigger] waiters[j], RecvEvent::Published(outcome)).1,
{
}

/// Demand is raised by no one but a subscriber that has just been registered:
/// a publication cannot slip by between the signal and the subscription.
pub proof fn lemma_signal_follows_subscription(stage: RecvStage, event: RecvEvent)
    requires
        recv_step(stage, event).1 == Some(RecvAction::Signal),
    ensures
        stage == RecvStage::Subscribing,
        event is Subscribed,
{
}

/// A receive returns once: a subscriber that has handed back an outcome takes
/// nothing in any more, so that no publication reaches a caller twice.
pub proof fn lemma_returns_once(stage: RecvStage, event: RecvEvent, later: RecvEvent)
    requires
        recv_step(stage, event).1 matches Some(RecvAction::Return(_)),
    ensures
        recv_step(stage, event).0 == RecvStage::Done,
        recv_step(RecvStage::Done, later) == (RecvStage::Done, None::<RecvAction>),
{
}

/// A receive begins by registering, then raises demand, then waits.
pub proof fn lemma_receive_opens_in_order()
    ensures
        recv_step(RecvStage::Idle, RecvEvent::Called) == (
            RecvStage::Subscribing,
            Some(RecvAction::Subscribe),
        ),
        recv_step(RecvStage::Subscribing, RecvEvent::Subscribed) == (
            RecvStage::Signalling,
            Some(RecvAction::Signal),
        ),
        recv_step(RecvStage::Signalling, RecvEvent::Signalled) == (
            RecvStage::Waiting { lags: 0 },
            Some(RecvAction::Await),
        ),
{
}

/// A subscriber that has lagged fewer than [`MAX_ATTEMPTS`] times is still
/// waiting, and the publication that reaches it next is what it returns.
pub proof fn lemma_lag_is_retried(n: nat, outcome: Outcome)
    requires
        n < MAX_ATTEMPTS,
    ensures
        recv_run(RecvStage::Waiting { lags: 0 }, lags(n)).0 == (RecvStage::Waiting {
            lags: n as u32,
        }),
        recv_run(RecvStage::Waiting { lags: 0 }, lags(n).push(RecvEvent::Published(outcome))) == (
            RecvStage::Done,
            Some(RecvAction::Return(outcome)),
        ),
    decreases n,
{
    if n > 0 {
        lemma_lag_is_retried((n - 1) as nat, outcome);
        assert(lags(n).drop_last() =~= lags((n - 1) as nat));
    }
    assert(lags(n).push(RecvEvent::Published(outcome)).drop_last() =~= lags(n));
}

/// A subscriber that lags [`MAX_ATTEMPTS`] times in a row fails for good.
pub proof fn lemma_persistent_lag_is_fatal()
    ensures
        recv_run(RecvStage::Waiting { lags: 0 }, lags(MAX_ATTEMPTS as nat)) == (
            RecvStage::Done,
            Some(RecvAction::Return(Err(Error::FatalError))),
        ),
{
    let outcome: Outcome = Err(Error::FatalError);
    lemma_lag_is_retried((MAX_ATTEMPTS - 1) as nat, outcome);
    assert(lags(MAX_ATTEMPTS as nat).drop_last() =~= lags((MAX_ATTEMPTS - 1) as nat));
}

/// Where the background loop stands in its cycle.
#[derive(Debug, Clone, Copy, PartialEq, Eq, Structural)]
pub enum Phase {
    /// Waiting for demand.
    Idle,
    /// The RPC work of a cycle is under way.
    Polling,
    /// The outcome of the cycle is being handed to the subscribers.
    Publishing,
    /// Sitting out what is left of the minimum period.
    RateLimitWait,
}

/// How the RPC work of a cycle ended.
#[derive(Debug, PartialEq, Eq)]
pub enum Poll {
    /// Every call was answered.
    Done(LightningMetrics),
    /// The daemon could not be reached, or one of the calls failed.
    Failed,
    /// The work was not done when the timeout ran out.
    TimedOut,
}

/// What happened to the loop since its last action. Instants are readings of
/// the driver's clock, in ticks since an origin of its choice.
#[derive(Debug, PartialEq, Eq)]
pub enum LoopEvent {
    /// The demand signal fired and was consumed.
    Demand { now: u64 },
    /// The RPC work of the cycle ended.
    Polled(Poll),
    /// The outcome was handed to `subscribers` subscribers.
    Published { subscribers: usize, now: u64 },
    /// The sleep has ended.
    Woke { now: u64 },
}

/// What the driver of the loop is to do next. Spans are in ticks of its clock.
#[derive(Debug, PartialEq, Eq)]
pub enum LoopAction {
    /// Wait until the demand signal fires.
    AwaitDemand,
    /// Poll the daemon, and give up after `timeout`.
    Poll { timeout: u64 },
    /// Hand this outcome to every subscriber.
    Publish(Outcome),
    /// Sleep for `span`.
    Sleep { span: u64 },
}

/// The state of the loop as the contracts see it.
pub struct LoopView {
    /// The least span between the starts of two cycles.
    pub min_period: u64,
    /// The most that the RPC work of one cycle may take.
    pub call_timeout: u64,
    pub phase: Phase,
    /// The latest instant the loop has been told of.
    pub clock: u64,
    /// When the cycle under way, or else the last one, began.
    pub started: u64,
}

impl LoopView {
    /// No cycle began later than the latest instant known.
    pub open spec fn wf(self) -> bool {
        self.started <= self.clock
    }

    /// The loop after it is told that it is `now`. Its clock never runs
    /// backwards: an instant earlier than one it knows changes nothing.
    pub open spec fn at(self, now: u64) -> LoopView {
        LoopView {
            clock: if now > self.clock {
                now
            } else {
                self.clock
            },
            ..self
        }
    }

    /// How long ago the cycle began.
    pub open spec fn elapsed(self) -> int {
        self.clock - self.started
    }

    /// What follows the publication: nothing if the minimum period has passed
    /// since the cycle began, else a sleep for what is left of it.
    pub open spec fn pause(self) -> (LoopView, Option<LoopAction>) {
        if self.elapsed() >= self.min_period {
            (LoopView { phase: Phase::Idle, ..self }, Some(LoopAction::AwaitDemand))
        } else {
            (
                LoopView { phase: Phase::RateLimitWait, ..self },
                Some(LoopAction::Sleep { span: (self.min_period - self.elapsed()) as u64 }),
            )
        }
    }
}

/// What a cycle publishes for the way its RPC work ended: the metrics, or the
/// word that the daemon is down. A timeout is no different from a failed call.
pub open spec fn classify(poll: Poll) -> Outcome {
    match poll {
        Poll::Done(metrics) => Ok(metrics),
        Poll::Failed => Err(Error::RpcError),
        Poll::TimedOut => Err(Error::RpcError),
    }
}

impl Poll {
    /// Says what is to be published for the way the RPC work ended.
    pub fn outcome(self) -> (outcome: Outcome)
        ensures
            outcome == classify(self),
    {
        match self {
            Poll::Done(metrics) => Ok(metrics),
            Poll::Failed => Err(Error::RpcError),
            Poll::TimedOut => Err(Error::RpcError),
        }
    }
}

/// The loop after `event` and the action it answers with. `None` means that
/// the event does not belong to the phase the loop is in; the loop is then
/// left as it was.
pub open spec fn loop_step(c: LoopView, event: LoopEvent) -> (LoopView, Option<LoopAction>) {
    match (c.phase, event) {
        (Phase::Idle, LoopEvent::Demand { now }) => (
            LoopView { phase: Phase::Polling, started: c.at(now).clock, ..c.at(now) },
            Some(LoopAction::Poll { timeout: c.call_timeout }),
        ),
        (Phase::Polling, LoopEvent::Polled(poll)) => (
            LoopView { phase: Phase::Publishing, ..c },
            Some(LoopAction::Publish(classify(poll))),
        ),
        (Phase::Publishing, LoopEvent::Published { now, .. }) => c.at(now).pause(),
        (Phase::RateLimitWait, LoopEvent::Woke { now }) => c.at(now).pause(),
        _ => (c, None),
    }
}

/// The background loop of the coordinator: one poll at a time, and no two
/// polls begun less than the minimum period apart.
#[derive(Debug)]
pub struct ProducerLoop {
    min_period: u64,
    call_timeout: u64,
    phase: Phase,
    clock: u64,
    started: u64,
}

impl View for ProducerLoop {
    type V = LoopView;

    closed spec fn view(&self) -> LoopView {
        LoopView {
            min_period: self.min_period,
            call_timeout: self.call_timeout,
            phase: self.phase,
            clock: self.clock,
            started: self.started,
        }
    }
}

impl ProducerLoop {
    #[verifier::type_invariant]
    spec fn inv(self) -> bool {
        self.started <= self.clock
    }

    /// A loop that is idle, and the first thing that its driver is to do:
    /// wait for demand.
    pub fn new(min_period: u64, call_timeout: u64) -> (start: (Self, LoopAction))
        ensures
            start.0@ == (LoopView {
                min_period,
                call_timeout,
                phase: Phase::Idle,
                clock: 0,
                started: 0,
            }),
            start.1 == LoopAction::AwaitDemand,
    {
        (
            ProducerLoop { min_period, call_timeout, phase: Phase::Idle, clock: 0, started: 0 },
            LoopAction::AwaitDemand,
        )
    }

    /// Moves the clock on to `now`, if that is later than what it shows.
    fn tell_time(&mut self, now: u64)
        ensures
            final(self)@ == old(self)@.at(now),
    {
        proof {
            use_type_invariant(&*self);
        }
        if now > self.clock {
            self.clock = now;
        }
    }

    /// Ends the cycle: back to waiting for demand, after a sleep if the
    /// minimum period has not passed yet.
    fn pause(&mut self) -> (action: Option<LoopAction>)
        ensures
            (final(self)@, action) == old(self)@.pause(),
    {
        proof {
            use_type_invariant(&*self);
        }
        let elapsed = self.clock - self.started;
        if elapsed >= self.min_period {
            self.phase = Phase::Idle;
            Some(LoopAction::AwaitDemand)
        } else {
            self.phase = Phase::RateLimitWait;
            Some(LoopAction::Sleep { span: self.min_period - elapsed })
        }
    }

    /// Takes in what happened and says what to do next.
    pub fn step(&mut self, event: LoopEvent) -> (action: Option<LoopAction>)
        ensures
            old(self)@.wf(),
            final(self)@.wf(),
            (final(self)@, action) == loop_step(old(self)@, event),
    {
        proof {
            use_type_invariant(&*self);
        }
        match (self.phase, event) {
            (Phase::Idle, LoopEvent::Demand { now }) => {
                self.tell_time(now);
                self.started = self.clock;
                self.phase = Phase::Polling;
                Some(LoopAction::Poll { timeout: self.call_timeout })
            },
            (Phase::Polling, LoopEvent::Polled(poll)) => {
                self.phase = Phase::Publishing;
                Some(LoopAction::Publish(poll.outcome()))
            },
            (Phase::Publishing, LoopEvent::Published { now, .. }) => {
                self.tell_time(now);
                self.pause()
            },
            (Phase::RateLimitWait, LoopEvent::Woke { now }) => {
                self.tell_time(now);
                self.pause()
            },
            _ => None,
        }
    }
}

/// The instants at which cycles begin while the loop takes in `events`, one
/// after the other.
pub open spec fn cycle_starts(c: LoopView, events: Seq<LoopEvent>) -> Seq<u64>
    decreases events.len(),
{
    if events.len() == 0 {
        Seq::empty()
    } else {
        let (next, action) = loop_step(c, events.first());
        let later = cycle_starts(next, events.drop_first());
        if action matches Some(LoopAction::Poll { .. }) {
            seq![next.started] + later
        } else {
            later
        }
    }
}

/// Whether each instant of `starts` is at least `min_period` after the one
/// before it.
pub open spec fn spaced(starts: Seq<u64>, min_period: u64) -> bool {
    forall|i: int, j: int|
        0 <= i && j == i + 1 && j < starts.len() ==> #[trigger] starts[j] - #[trigger] starts[i]
            >= min_period
}

/// From a state in which a cycle is under way, or is over for at least the
/// minimum period, every cycle to come keeps its distance from the one before
/// it, the first of them from the cycle that the state knows.
proof fn lemma_spaced_after(c: LoopView, events: Seq<LoopEvent>)
    requires
        c.wf(),
        c.phase == Phase::Idle ==> c.elapsed() >= c.min_period,
    ensures
        spaced(seq![c.started] + cycle_starts(c, events), c.min_period),
    decreases events.len(),
{
    if events.len() > 0 {
        lemma_spaced_after(loop_step(c, events.first()).0, events.drop_first());
    }
}

/// No two cycles in a row begin less than the minimum period apart, whatever
/// happens to the loop and however soon demand is raised again. The instants
/// are those of the loop's own clock, which follows what it is told and never
/// runs backwards.
pub proof fn lemma_cycles_are_spaced(c: LoopView, events: Seq<LoopEvent>)
    requires
        c.wf(),
    ensures
        spaced(cycle_starts(c, events), c.min_period),
    decreases events.len(),
{
    if c.phase == Phase::Idle ==> c.elapsed() >= c.min_period {
        lemma_spaced_after(c, events);
        let all = seq![c.started] + cycle_starts(c, events);
        let starts = cycle_starts(c, events);
        assert forall|i: int, j: int| 0 <= i && j == i + 1 && j < starts.len() implies starts[j]
            - starts[i] >= c.min_period by {
            assert(all[j + 1] == starts[j] && all[i + 1] == starts[i]);
        }
    } else if events.len() > 0 {
        let (next, action) = loop_step(c, events.first());
        if action matches Some(LoopAction::Poll { .. }) {
            lemma_spaced_after(next, events.drop_first());
        } else {
            lemma_cycles_are_spaced(next, events.drop_first());
        }
    }
}

/// One poll runs at a time: a poll is begun by an idle loop only, on demand,
/// and a loop that has begun one is idle again only when the outcome is
/// published and the minimum period has passed.
pub proof fn lemma_one_poll_at_a_time(c: LoopView, event: LoopEvent)
    ensures
        loop_step(c, event).1 matches Some(LoopAction::Poll { .. }) ==> {
            &&& c.phase == Phase::Idle
            &&& event is Demand
            &&& loop_step(c, event).0.phase == Phase::Polling
        },
        c.phase != Phase::Idle && loop_step(c, event).0.phase == Phase::Idle ==> {
            &&& c.phase == Phase::Publishing || c.phase == Phase::RateLimitWait
            &&& loop_step(c, event).0.elapsed() >= c.min_period
        },
{
}

/// A cycle whose RPC work ran out of time publishes that the daemon is down,
/// not that the coordinator is broken, and holds up the next cycle no longer
/// than any other: the loop is idle again as soon as the minimum period has
/// passed since the cycle began.
pub proof fn lemma_timeout_is_upstream_failure(
    c: LoopView,
    poll: Poll,
    subscribers: usize,
    now: u64,
)
    requires
        c.wf(),
        c.phase == Phase::Polling,
    ensures
        loop_step(c, LoopEvent::Polled(Poll::TimedOut)).1 == Some(
            LoopAction::Publish(Err(Error::RpcError)),
        ),
        loop_step(c, LoopEvent::Polled(Poll::TimedOut)).0 == loop_step(
            c,
            LoopEvent::Polled(poll),
        ).0,
        ({
            let published = loop_step(
                loop_step(c, LoopEvent::Polled(Poll::TimedOut)).0,
                LoopEvent::Published { subscribers, now },
            );
            let t = c.at(now);
            if t.clock - c.started >= c.min_period {
                published == (LoopView { phase: Phase::Idle, ..t }, Some(LoopAction::AwaitDemand))
            } else {
                published == (
                    LoopView { phase: Phase::RateLimitWait, ..t },
                    Some(
                        LoopAction::Sleep { span: (c.min_period - (t.clock - c.started)) as u64 },
                    ),
                )
            }
        }),
{
}

} // verus!
