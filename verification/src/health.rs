//! Probing the dashboard: the health monitor that runs beside a worker, and
//! the wait for a freshly started dashboard to answer.
//!
//! Neither ever fails and neither ever restarts anything. A probe that goes
//! wrong is something to log; the monitor goes on and the wait goes on until
//! its time is up.

use vstd::prelude::*;
use vstd::string::*;
use crate::text::{decimal, decimal_text};

verus! {

/// Seconds between two probes of the health monitor.
pub const MONITOR_INTERVAL_SECS: u64 = 30;

/// Seconds that one probe is given.
pub const PROBE_TIMEOUT_SECS: u64 = 5;

/// Milliseconds between two probes of the wait for readiness.
pub const READINESS_POLL_MILLIS: u64 = 500;

/// Seconds that the dashboard is given to become ready.
pub const READINESS_TIMEOUT_SECS: u64 = 60;

/// How a probe went.
#[derive(Clone, Copy, Debug, PartialEq, Eq, Structural)]
pub enum ProbeOutcome {
    /// The dashboard answered with this status.
    Status { code: u16 },
    /// No answer came, or none in time.
    Unreachable,
}

/// Whether the outcome shows a dashboard that answers requests: a status
/// from 200 to 299.
pub open spec fn healthy(outcome: ProbeOutcome) -> bool {
    outcome matches ProbeOutcome::Status { code } && 200 <= code <= 299
}

/// Tells whether the outcome shows a dashboard that answers requests.
pub fn health_check(outcome: ProbeOutcome) -> (ok: bool)
    ensures
        ok == healthy(outcome),
{
    match outcome {
        ProbeOutcome::Status { code } => 200 <= code && code <= 299,
        ProbeOutcome::Unreachable => false,
    }
}

/// The address that is probed.
pub open spec fn probe_url_of(port: u16) -> Seq<char> {
    "http://127.0.0.1:"@ + decimal_text(port as nat) + "/"@
}

/// Writes the address that is probed.
pub fn probe_url(port: u16) -> (url: String)
    ensures
        url@ == probe_url_of(port),
{
    let digits = decimal(port);
    let mut url = String::from_str("http://127.0.0.1:");
    url.append(digits.as_str());
    url.append("/");
    url
}

/// The address at which the user finds the dashboard.
pub open spec fn dashboard_url_of(port: u16) -> Seq<char> {
    "http://localhost:"@ + decimal_text(port as nat)
}

/// Writes the address at which the user finds the dashboard.
pub fn dashboard_url(port: u16) -> (url: String)
    ensures
        url@ == dashboard_url_of(port),
{
    let digits = decimal(port);
    let mut url = String::from_str("http://localhost:");
    url.append(digits.as_str());
    url
}

/// Where a health monitor stands.
#[derive(Clone, Copy, Debug, PartialEq, Eq, Structural)]
pub enum MonitorState {
    /// Not launched yet.
    Fresh,
    /// Between two probes.
    Sleeping,
    /// Waiting for a probe to return.
    Probing,
    /// Over.
    Finished,
}

/// What the driver tells a health monitor.
#[derive(Clone, Copy, Debug, PartialEq, Eq, Structural)]
pub enum MonitorEvent {
    /// The monitor was launched.
    Launched,
    /// The interval is over; `running` is what the running flag said then.
    Woke { running: bool },
    /// The probe returned.
    Probed { outcome: ProbeOutcome },
}

/// What a health monitor asks of the driver.
#[derive(Clone, Copy, Debug, PartialEq, Eq, Structural)]
pub enum MonitorAction {
    /// Sleep, then read the running flag; answer `Woke`.
    Sleep { secs: u64 },
    /// Probe the dashboard; answer `Probed`.
    Probe { timeout_secs: u64 },
    /// End the monitor.
    Exit,
    /// The event answers nothing that the monitor waits for.
    Ignored,
}

/// The monitor's transition function. The monitor sleeps, reads the flag,
/// and probes only if the flag is set; the first time it finds the flag
/// cleared it ends, and it stays ended. What a probe returns changes
/// nothing.
pub open spec fn monitor_step(s: MonitorState, e: MonitorEvent) -> (MonitorState, MonitorAction) {
    match (s, e) {
        (MonitorState::Finished, _) => (MonitorState::Finished, MonitorAction::Exit),
        (MonitorState::Fresh, MonitorEvent::Launched) => (
            MonitorState::Sleeping,
            MonitorAction::Sleep { secs: MONITOR_INTERVAL_SECS },
        ),
        (MonitorState::Sleeping, MonitorEvent::Woke { running }) => if running {
            (MonitorState::Probing, MonitorAction::Probe { timeout_secs: PROBE_TIMEOUT_SECS })
        } else {
            (MonitorState::Finished, MonitorAction::Exit)
        },
        (MonitorState::Probing, MonitorEvent::Probed { .. }) => (
            MonitorState::Sleeping,
            MonitorAction::Sleep { secs: MONITOR_INTERVAL_SECS },
        ),
        _ => (s, MonitorAction::Ignored),
    }
}

/// Where a monitor stands after it was told of `events`, one after the
/// other.
pub open spec fn monitor_run(s: MonitorState, events: Seq<MonitorEvent>) -> MonitorState
    decreases events.len(),
{
    if events.len() == 0 {
        s
    } else {
        monitor_step(monitor_run(s, events.drop_last()), events.last()).0
    }
}

/// What a monitor asked when it was told of the `i`-th of `events`.
pub open spec fn monitor_asked(s: MonitorState, events: Seq<MonitorEvent>, i: int) -> MonitorAction
    recommends
        0 <= i < events.len(),
{
    monitor_step(monitor_run(s, events.take(i)), events[i]).1
}

/// Whether `e` is the answer that the action `a` asks for.
pub open spec fn is_monitor_answer_to(a: MonitorAction, e: MonitorEvent) -> bool {
    match a {
        MonitorAction::Sleep { .. } => e is Woke,
        MonitorAction::Probe { .. } => e is Probed,
        _ => false,
    }
}

/// A driver that answers what it is asked is never ignored, and a probe is
/// always followed by a sleep of one interval, whatever the probe showed.
pub proof fn lemma_monitor_answers_are_awaited(
    s: MonitorState,
    e: MonitorEvent,
    answer: MonitorEvent,
)
    requires
        is_monitor_answer_to(monitor_step(s, e).1, answer),
    ensures
        !(monitor_step(monitor_step(s, e).0, answer).1 is Ignored),
        answer is Probed ==> monitor_step(monitor_step(s, e).0, answer).1 == (MonitorAction::Sleep {
            secs: MONITOR_INTERVAL_SECS,
        }),
{
}

/// A probe is asked for only on waking to a set flag.
pub proof fn lemma_probe_only_while_running(s: MonitorState, e: MonitorEvent)
    ensures
        monitor_step(s, e).1 is Probe ==> e == (MonitorEvent::Woke { running: true }),
{
}

/// A monitor that has ended stays ended, whatever it is told.
pub proof fn lemma_finished_stays_finished(events: Seq<MonitorEvent>)
    ensures
        monitor_run(MonitorState::Finished, events) == MonitorState::Finished,
    decreases events.len(),
{
    if events.len() > 0 {
        lemma_finished_stays_finished(events.drop_last());
    }
}

/// Let `times` tell when each of `events` came. If every wake-up from
/// `stopped_at` on found the flag cleared, as it does once a stop has cleared
/// it and nothing has set it since, then no probe is asked for from
/// `stopped_at` on.
pub proof fn lemma_no_probe_after_stop(
    s: MonitorState,
    events: Seq<MonitorEvent>,
    times: Seq<nat>,
    stopped_at: nat,
)
    requires
        times.len() == events.len(),
        forall|i: int|
            0 <= i < events.len() && times[i] >= stopped_at ==> !(#[trigger] events[i]
                matches MonitorEvent::Woke { running } && running),
    ensures
        forall|i: int|
            0 <= i < events.len() && times[i] >= stopped_at ==> !(#[trigger] monitor_asked(
                s,
                events,
                i,
            ) is Probe),
{
    assert forall|i: int| 0 <= i < events.len() && times[i] >= stopped_at implies !(
    #[trigger] monitor_asked(s, events, i) is Probe) by {
        lemma_probe_only_while_running(monitor_run(s, events.take(i)), events[i]);
    }
}

/// The first wake-up that finds the flag cleared ends the monitor, and
/// nothing is probed from then on.
pub proof fn lemma_monitor_ends_at_cleared_flag(
    s: MonitorState,
    events: Seq<MonitorEvent>,
    k: int,
)
    requires
        0 <= k < events.len(),
        monitor_run(s, events.take(k)) == MonitorState::Sleeping,
        events[k] == (MonitorEvent::Woke { running: false }),
    ensures
        forall|i: int|
            k <= i < events.len() ==> #[trigger] monitor_asked(s, events, i)
                == MonitorAction::Exit,
        monitor_run(s, events) == MonitorState::Finished,
{
    assert forall|i: int| k <= i < events.len() implies #[trigger] monitor_asked(s, events, i)
        == MonitorAction::Exit by {
        lemma_ended_after(s, events, k, i);
    }
    lemma_ended_after(s, events, k, events.len() as int);
    assert(events.take(events.len() as int) =~= events);
}

proof fn lemma_ended_after(s: MonitorState, events: Seq<MonitorEvent>, k: int, i: int)
    requires
        0 <= k < events.len(),
        k <= i <= events.len(),
        monitor_run(s, events.take(k)) == MonitorState::Sleeping,
        events[k] == (MonitorEvent::Woke { running: false }),
    ensures
        i > k ==> monitor_run(s, events.take(i)) == MonitorState::Finished,
    decreases i - k,
{
    if i > k {
        lemma_ended_after(s, events, k, i - 1);
        assert(events.take(i).drop_last() =~= events.take(i - 1));
        assert(events.take(i).last() == events[i - 1]);
    }
}

/// The health monitor of one worker.
#[derive(Debug)]
pub struct HealthMonitor {
    port: u16,
    state: MonitorState,
}

impl HealthMonitor {
    /// The port whose dashboard is probed.
    pub closed spec fn port_of(&self) -> u16 {
        self.port
    }

    /// Where the monitor stands.
    pub closed spec fn state_of(&self) -> MonitorState {
        self.state
    }

    /// A monitor for the dashboard on `port`, not launched yet.
    pub fn new(port: u16) -> (monitor: HealthMonitor)
        ensures
            monitor.port_of() == port,
            monitor.state_of() == MonitorState::Fresh,
    {
        HealthMonitor { port, state: MonitorState::Fresh }
    }

    /// The port whose dashboard is probed.
    pub fn port(&self) -> (port: u16)
        ensures
            port == self.port_of(),
    {
        self.port
    }

    /// Where the monitor stands.
    pub fn state(&self) -> (state: MonitorState)
        ensures
            state == self.state_of(),
    {
        self.state
    }

    /// Tells the monitor of `event`; returns what it asks next.
    pub fn advance(&mut self, event: MonitorEvent) -> (action: MonitorAction)
        ensures
            final(self).port_of() == old(self).port_of(),
            final(self).state_of() == monitor_step(old(self).state_of(), event).0,
            action == monitor_step(old(self).state_of(), event).1,
    {
        let (next, action) = match (self.state, event) {
            (MonitorState::Finished, _) => (MonitorState::Finished, MonitorAction::Exit),
            (MonitorState::Fresh, MonitorEvent::Launched) => (
                MonitorState::Sleeping,
                MonitorAction::Sleep { secs: MONITOR_INTERVAL_SECS },
            ),
            (MonitorState::Sleeping, MonitorEvent::Woke { running }) => {
                if running {
                    (
                        MonitorState::Probing,
                        MonitorAction::Probe { timeout_secs: PROBE_TIMEOUT_SECS },
                    )
                } else {
                    (MonitorState::Finished, MonitorAction::Exit)
                }
            },
            (MonitorState::Probing, MonitorEvent::Probed { .. }) => (
                MonitorState::Sleeping,
                MonitorAction::Sleep { secs: MONITOR_INTERVAL_SECS },
            ),
            _ => (self.state, MonitorAction::Ignored),
        };
        self.state = next;
        action
    }
}

/// What the driver tells the wait for readiness.
#[derive(Clone, Copy, Debug, PartialEq, Eq, Structural)]
pub enum ReadinessEvent {
    /// The wait begins or a pause is over; so much time has passed since it
    /// began.
    Elapsed { millis: u64 },
    /// The probe returned.
    Probed { outcome: ProbeOutcome },
}

/// What the wait for readiness asks of the driver.
#[derive(Clone, Copy, Debug, PartialEq, Eq, Structural)]
pub enum ReadinessAction {
    /// Probe the dashboard; answer `Probed`.
    Probe { timeout_secs: u64 },
    /// Pause; answer `Elapsed`.
    Pause { millis: u64 },
    /// The wait is over; `ready` tells whether the dashboard answered.
    Finish { ready: bool },
}

/// The next step of a wait that gives the dashboard `timeout_secs` seconds:
/// probe as long as the time is not up; end with success at the first probe
/// that shows a healthy dashboard; pause after any other.
pub open spec fn readiness_step(timeout_secs: u64, e: ReadinessEvent) -> ReadinessAction {
    match e {
        ReadinessEvent::Elapsed { millis } => if millis < timeout_secs * 1000 {
            ReadinessAction::Probe { timeout_secs: PROBE_TIMEOUT_SECS }
        } else {
            ReadinessAction::Finish { ready: false }
        },
        ReadinessEvent::Probed { outcome } => if healthy(outcome) {
            ReadinessAction::Finish { ready: true }
        } else {
            ReadinessAction::Pause { millis: READINESS_POLL_MILLIS }
        },
    }
}

/// Decides the next step of the wait for a freshly started dashboard.
pub fn wait_for_dashboard_ready(timeout_secs: u64, event: ReadinessEvent) -> (action:
    ReadinessAction)
    ensures
        action == readiness_step(timeout_secs, event),
{
    match event {
        ReadinessEvent::Elapsed { millis } => {
            assert((millis / 1000 < timeout_secs) == (millis < timeout_secs * 1000))
                by (nonlinear_arith);
            if millis / 1000 < timeout_secs {
                ReadinessAction::Probe { timeout_secs: PROBE_TIMEOUT_SECS }
            } else {
                ReadinessAction::Finish { ready: false }
            }
        },
        ReadinessEvent::Probed { outcome } => {
            if health_check(outcome) {
                ReadinessAction::Finish { ready: true }
            } else {
                ReadinessAction::Pause { millis: READINESS_POLL_MILLIS }
            }
        },
    }
}

/// Tells whether the dashboard is opened in the browser once the wait is
/// over: it is, ready or not, so that the user is not kept waiting for a
/// dashboard that is slow to answer.
pub fn opens_after_wait(ready: bool) -> (open: bool)
    ensures
        open,
{
    true
}

/// The wait reports readiness only for a probe that showed a healthy
/// dashboard, and gives up only when the time is up.
pub proof fn lemma_readiness_is_earned(timeout_secs: u64, e: ReadinessEvent)
    ensures
        readiness_step(timeout_secs, e) == (ReadinessAction::Finish { ready: true }) <==> (e
            matches ReadinessEvent::Probed { outcome } && healthy(outcome)),
        readiness_step(timeout_secs, e) == (ReadinessAction::Finish { ready: false }) <==> (e
            matches ReadinessEvent::Elapsed { millis } && millis >= timeout_secs * 1000),
{
}

} // verus!
