//! When the backend counts as ready.
//!
//! The launcher polls the backend's port until a connection succeeds or the
//! deadline passes. The prober decides what happens next; the caller reads the
//! clock, connects and sleeps, and reports each observation as an event.
//!
//! One round of polling is: read the clock, and unless the deadline has
//! passed, try to connect, and unless that succeeded, sleep. A failed
//! connection is never an error, only "not yet".

use crate::launcher::BACKEND_PORT;
use vstd::prelude::*;

verus! {

/// How long one connection attempt may take, in milliseconds.
pub const CONNECT_TIMEOUT_MS: u64 = 500;

/// The pause between two connection attempts, in milliseconds.
pub const POLL_INTERVAL_MS: u64 = 250;

/// The deadline of a normal launch, in seconds.
pub const READINESS_TIMEOUT_SECS: u64 = 30;

/// The loopback address on which the backend listens.
pub const LOOPBACK: [u8; 4] = [127, 0, 0, 1];

/// The outcome of probing so far.
#[derive(Clone, Copy, Debug, PartialEq, Eq, Structural)]
pub enum ReadinessState {
    Polling,
    Ready,
    TimedOut,
}

/// Where the prober stands: which observation it waits for, or its verdict.
#[derive(Clone, Copy, Debug, PartialEq, Eq, Structural)]
pub enum Phase {
    AwaitingClock,
    AwaitingConnect,
    AwaitingSleep,
    Ready,
    TimedOut,
}

/// What the caller observed.
#[derive(Clone, Copy, Debug, PartialEq, Eq, Structural)]
pub enum ProbeEvent {
    /// The time since probing began, in whole milliseconds.
    Elapsed { millis: u128 },
    /// A connection attempt ended; `ok` says whether it connected.
    Connected { ok: bool },
    /// The pause between attempts is over.
    Slept,
}

/// What the caller is to do next.
#[derive(Clone, Copy, Debug, PartialEq, Eq)]
pub enum ProbeAction {
    /// Read the time since probing began and report it.
    ReadClock,
    /// Try to connect to `host:port`, giving up after `timeout_ms`.
    Connect { host: [u8; 4], port: u16, timeout_ms: u64 },
    /// Sleep for `millis`.
    Sleep { millis: u64 },
    /// Probing is over; `ready` is the verdict.
    Finish { ready: bool },
}

/// The probe loop's decisions for one launch attempt.
#[derive(Clone, Copy, Debug, PartialEq, Eq, Structural)]
pub struct Prober {
    /// The deadline, in seconds since probing began.
    pub timeout_secs: u64,
    pub phase: Phase,
}

impl Phase {
    pub open spec fn state_spec(self) -> ReadinessState {
        match self {
            Phase::Ready => ReadinessState::Ready,
            Phase::TimedOut => ReadinessState::TimedOut,
            _ => ReadinessState::Polling,
        }
    }
}

impl Prober {
    /// A prober that has observed nothing yet.
    pub open spec fn new_spec(timeout_secs: u64) -> Prober {
        Prober { timeout_secs, phase: Phase::AwaitingClock }
    }

    /// The deadline in milliseconds.
    pub open spec fn budget_ms(self) -> int {
        self.timeout_secs * 1000
    }

    /// The prober after `event`.
    ///
    /// While polling, the awaited observation moves the prober on: a clock
    /// reading below the deadline leads to a connection attempt, one at or
    /// past it to `TimedOut`; a connection leads to `Ready`, a failed attempt
    /// to a pause; the end of the pause leads back to the clock. Any other
    /// event, and every event after a verdict, changes nothing.
    pub open spec fn next(self, event: ProbeEvent) -> Prober {
        match (self.phase, event) {
            (Phase::AwaitingClock, ProbeEvent::Elapsed { millis }) => if millis < self.budget_ms() {
                Prober { phase: Phase::AwaitingConnect, ..self }
            } else {
                Prober { phase: Phase::TimedOut, ..self }
            },
            (Phase::AwaitingConnect, ProbeEvent::Connected { ok }) => if ok {
                Prober { phase: Phase::Ready, ..self }
            } else {
                Prober { phase: Phase::AwaitingSleep, ..self }
            },
            (Phase::AwaitingSleep, ProbeEvent::Slept) => Prober { phase: Phase::AwaitingClock, ..self },
            _ => self,
        }
    }

    /// What the caller is to do in this phase.
    pub open spec fn action(self) -> ProbeAction {
        match self.phase {
            Phase::AwaitingClock => ProbeAction::ReadClock,
            Phase::AwaitingConnect => ProbeAction::Connect {
                host: LOOPBACK,
                port: BACKEND_PORT,
                timeout_ms: CONNECT_TIMEOUT_MS,
            },
            Phase::AwaitingSleep => ProbeAction::Sleep { millis: POLL_INTERVAL_MS },
            Phase::Ready => ProbeAction::Finish { ready: true },
            Phase::TimedOut => ProbeAction::Finish { ready: false },
        }
    }

    /// The prober after a sequence of events, oldest first.
    pub open spec fn run(self, events: Seq<ProbeEvent>) -> Prober
        decreases events.len(),
    {
        if events.len() == 0 {
            self
        } else {
            self.run(events.drop_last()).next(events.last())
        }
    }

    /// Starts probing with a deadline of `timeout_secs` seconds.
    pub fn new(timeout_secs: u64) -> (prober: Prober)
        ensures
            prober == Prober::new_spec(timeout_secs),
    {
        Prober { timeout_secs, phase: Phase::AwaitingClock }
    }

    /// The outcome so far.
    pub fn state(&self) -> (state: ReadinessState)
        ensures
            state == self.phase.state_spec(),
    {
        match self.phase {
            Phase::Ready => ReadinessState::Ready,
            Phase::TimedOut => ReadinessState::TimedOut,
            _ => ReadinessState::Polling,
        }
    }

    /// What the caller is to do now.
    pub fn pending(&self) -> (action: ProbeAction)
        ensures
            action == self.action(),
    {
        match self.phase {
            Phase::AwaitingClock => ProbeAction::ReadClock,
            Phase::AwaitingConnect => ProbeAction::Connect {
                host: LOOPBACK,
                port: BACKEND_PORT,
                timeout_ms: CONNECT_TIMEOUT_MS,
            },
            Phase::AwaitingSleep => ProbeAction::Sleep { millis: POLL_INTERVAL_MS },
            Phase::Ready => ProbeAction::Finish { ready: true },
            Phase::TimedOut => ProbeAction::Finish { ready: false },
        }
    }

    /// Takes in one observation and says what to do next.
    pub fn step(&mut self, event: ProbeEvent) -> (action: ProbeAction)
        ensures
            *final(self) == old(self).next(event),
            action == final(self).action(),
    {
        match (self.phase, event) {
            (Phase::AwaitingClock, ProbeEvent::Elapsed { millis }) => {
                let budget: u128 = (self.timeout_secs as u128) * 1000;
                if millis < budget {
                    self.phase = Phase::AwaitingConnect;
                } else {
                    self.phase = Phase::TimedOut;
                }
            },
            (Phase::AwaitingConnect, ProbeEvent::Connected { ok }) => {
                if ok {
                    self.phase = Phase::Ready;
                } else {
                    self.phase = Phase::AwaitingSleep;
                }
            },
            (Phase::AwaitingSleep, ProbeEvent::Slept) => {
                self.phase = Phase::AwaitingClock;
            },
            _ => {},
        }
        self.pending()
    }
}

/// No event in the sequence reports a successful connection.
pub open spec fn never_connected(events: Seq<ProbeEvent>) -> bool {
    forall|i: int| 0 <= i < events.len() ==> #[trigger] events[i] != (ProbeEvent::Connected { ok: true })
}

/// A verdict is final: after `Ready` or `TimedOut` no event changes the
/// prober, and the action stays `Finish` with the same verdict.
pub proof fn lemma_verdict_is_final(prober: Prober, events: Seq<ProbeEvent>)
    requires
        prober.phase.state_spec() != ReadinessState::Polling,
    ensures
        prober.run(events) == prober,
        prober.action() == (ProbeAction::Finish { ready: prober.phase == Phase::Ready }),
    decreases events.len(),
{
    if events.len() > 0 {
        lemma_verdict_is_final(prober, events.drop_last());
    }
}

/// Without a successful connection the prober never becomes ready, whatever
/// else it observes and in whatever order.
pub proof fn lemma_ready_needs_connection(prober: Prober, events: Seq<ProbeEvent>)
    requires
        prober.phase != Phase::Ready,
        never_connected(events),
    ensures
        prober.run(events).phase != Phase::Ready,
    decreases events.len(),
{
    if events.len() > 0 {
        let earlier = events.drop_last();
        assert forall|i: int| 0 <= i < earlier.len() implies #[trigger] earlier[i] != (
        ProbeEvent::Connected { ok: true }) by {
            assert(earlier[i] == events[i]);
        }
        lemma_ready_needs_connection(prober, earlier);
        assert(events.last() == events[events.len() - 1]);
    }
}

/// If the first clock reading is below the deadline and the first connection
/// attempt succeeds, the prober is ready after these two observations: it
/// asked for the clock, then for a connection, and never for a pause.
pub proof fn lemma_ready_on_first_connection(timeout_secs: u64, millis: u128)
    requires
        millis < timeout_secs * 1000,
    ensures
        Prober::new_spec(timeout_secs).action() == ProbeAction::ReadClock,
        Prober::new_spec(timeout_secs).next(ProbeEvent::Elapsed { millis }).action()
            is Connect,
        Prober::new_spec(timeout_secs).next(ProbeEvent::Elapsed { millis }).next(
            ProbeEvent::Connected { ok: true },
        ).action() == (ProbeAction::Finish { ready: true }),
{
}

/// The prober gives up no earlier than the deadline: a polling prober times
/// out only on a clock reading, and only on one at or past the deadline.
pub proof fn lemma_timeout_not_before_deadline(prober: Prober, event: ProbeEvent)
    requires
        prober.phase.state_spec() == ReadinessState::Polling,
        prober.next(event).phase == Phase::TimedOut,
    ensures
        event matches ProbeEvent::Elapsed { millis } && millis >= prober.budget_ms(),
{
}

/// The prober gives up no later than one round after the deadline.
///
/// Take a round that began with a clock reading `before` on which the prober
/// went on polling, whose attempt failed, and that was followed by a reading
/// `after` on which the prober timed out. If attempt and pause took no longer
/// than their limits, so that `after` is at most `before` plus both, then
/// `after` lies between the deadline and the deadline plus both.
pub proof fn lemma_timeout_within_one_round(prober: Prober, before: u128, after: u128)
    requires
        prober.phase == Phase::AwaitingClock,
        before <= after <= before + CONNECT_TIMEOUT_MS + POLL_INTERVAL_MS,
        prober.next(ProbeEvent::Elapsed { millis: before }).phase.state_spec()
            == ReadinessState::Polling,
        prober.next(ProbeEvent::Elapsed { millis: before }).next(ProbeEvent::Connected { ok: false })
            .next(ProbeEvent::Slept).next(ProbeEvent::Elapsed { millis: after }).phase
            == Phase::TimedOut,
    ensures
        prober.budget_ms() <= after < prober.budget_ms() + CONNECT_TIMEOUT_MS + POLL_INTERVAL_MS,
{
}

/// What a launcher observes of a backend that never listens, given the
/// clock readings it takes: after every reading but the last a failed
/// attempt and a pause, and then the last reading.
pub open spec fn silent_backend(readings: Seq<u128>) -> Seq<ProbeEvent>
    decreases readings.len(),
{
    if readings.len() == 0 {
        Seq::empty()
    } else if readings.len() == 1 {
        seq![ProbeEvent::Elapsed { millis: readings[0] }]
    } else {
        silent_backend(readings.drop_last()) + seq![
            ProbeEvent::Connected { ok: false },
            ProbeEvent::Slept,
            ProbeEvent::Elapsed { millis: readings.last() },
        ]
    }
}

/// The clock readings of a launcher whose attempts and pauses keep to their
/// limits: the first reading comes within one round of the start, and each
/// later one no earlier than the one before and at most one round after it.
pub open spec fn paced(readings: Seq<u128>) -> bool {
    &&& readings.len() > 0
    &&& readings[0] <= CONNECT_TIMEOUT_MS + POLL_INTERVAL_MS
    &&& forall|i: int|
        0 < i < readings.len() ==> readings[i - 1] <= #[trigger] readings[i] <= readings[i - 1]
            + CONNECT_TIMEOUT_MS + POLL_INTERVAL_MS
}

/// Running over three more events is three more steps.
proof fn lemma_run_three_more(
    prober: Prober,
    events: Seq<ProbeEvent>,
    first: ProbeEvent,
    second: ProbeEvent,
    third: ProbeEvent,
)
    ensures
        prober.run(events + seq![first, second, third]) == prober.run(events).next(first).next(
            second,
        ).next(third),
{
    let one = events + seq![first];
    let two = events + seq![first, second];
    let three = events + seq![first, second, third];
    assert(three.drop_last() =~= two);
    assert(two.drop_last() =~= one);
    assert(one.drop_last() =~= events);
    assert(prober.run(one) == prober.run(events).next(first));
    assert(prober.run(two) == prober.run(one).next(second));
    assert(prober.run(three) == prober.run(two).next(third));
}

/// Against a backend that never listens, a new prober is, after every
/// reading, either about to connect, with that reading below the deadline,
/// or timed out.
proof fn lemma_silent_backend_phase(timeout_secs: u64, readings: Seq<u128>)
    requires
        readings.len() > 0,
    ensures
        ({
            let prober = Prober::new_spec(timeout_secs).run(silent_backend(readings));
            &&& prober.timeout_secs == timeout_secs
            &&& prober.phase == Phase::AwaitingConnect || prober.phase == Phase::TimedOut
            &&& prober.phase == Phase::AwaitingConnect ==> readings.last() < prober.budget_ms()
        }),
    decreases readings.len(),
{
    let start = Prober::new_spec(timeout_secs);
    if readings.len() == 1 {
        let events = silent_backend(readings);
        assert(events.drop_last() =~= Seq::<ProbeEvent>::empty());
        assert(start.run(events.drop_last()) == start);
        assert(events.last() == (ProbeEvent::Elapsed { millis: readings[0] }));
    } else {
        lemma_silent_backend_phase(timeout_secs, readings.drop_last());
        lemma_run_three_more(
            start,
            silent_backend(readings.drop_last()),
            ProbeEvent::Connected { ok: false },
            ProbeEvent::Slept,
            ProbeEvent::Elapsed { millis: readings.last() },
        );
    }
}

/// Against a backend that never listens, the verdict is `false`, and it
/// falls no earlier than the deadline and no later than one round after it.
///
/// Take a new prober and paced clock readings, with a failed attempt and a
/// pause between any two of them. If the prober was still polling before the
/// last reading and timed out on it, that reading lies between the deadline
/// and the deadline plus the limits of one attempt and one pause.
pub proof fn lemma_silent_backend_times_out_in_window(timeout_secs: u64, readings: Seq<u128>)
    requires
        paced(readings),
        Prober::new_spec(timeout_secs).run(silent_backend(readings.drop_last())).phase.state_spec()
            == ReadinessState::Polling,
        Prober::new_spec(timeout_secs).run(silent_backend(readings)).phase.state_spec()
            != ReadinessState::Polling,
    ensures
        Prober::new_spec(timeout_secs).run(silent_backend(readings)).action() == (
        ProbeAction::Finish { ready: false }),
        timeout_secs * 1000 <= readings.last() <= timeout_secs * 1000 + CONNECT_TIMEOUT_MS
            + POLL_INTERVAL_MS,
{
    let start = Prober::new_spec(timeout_secs);
    lemma_silent_backend_phase(timeout_secs, readings);
    if readings.len() == 1 {
        let events = silent_backend(readings);
        assert(events.drop_last() =~= Seq::<ProbeEvent>::empty());
        assert(start.run(events.drop_last()) == start);
        assert(events.last() == (ProbeEvent::Elapsed { millis: readings[0] }));
    } else {
        let earlier = readings.drop_last();
        lemma_silent_backend_phase(timeout_secs, earlier);
        lemma_run_three_more(
            start,
            silent_backend(earlier),
            ProbeEvent::Connected { ok: false },
            ProbeEvent::Slept,
            ProbeEvent::Elapsed { millis: readings.last() },
        );
        let before = earlier.last();
        assert(before == readings[readings.len() - 2]);
        assert(readings.last() == readings[readings.len() - 1]);
        assert(before <= readings.last() <= before + CONNECT_TIMEOUT_MS + POLL_INTERVAL_MS);
    }
}

} // verus!
