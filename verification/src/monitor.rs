//! The presence monitor: a two-state machine that debounces bursts of
//! hotplug signals into single rechecks and forces a periodic recheck when
//! no signal arrives at all.
//!
//! The loop around it blocks on the hotplug channel with the timeout that
//! [`MonitorState::wait_millis`] names, turns the outcome into a
//! [`MonitorEvent`], and performs a recheck whenever [`step`] orders one.

use vstd::prelude::*;

verus! {

/// Milliseconds the monitor waits for a hotplug signal while idle before it
/// forces a recheck anyway.
pub const PERIODIC_RECHECK_MILLIS: u64 = 120_000;

/// Milliseconds of hotplug silence that end a debounce phase.
pub const SETTLE_MILLIS: u64 = 1_000;

/// The monitor's wait phase.
#[derive(Clone, Copy, Debug, PartialEq, Eq, Structural)]
pub enum MonitorState {
    /// Waiting for the next hotplug signal, up to the long periodic timeout.
    Idle,
    /// A burst of hotplug signals is in flight; waiting for it to settle.
    Debouncing,
}

/// What ended one wait of the monitor loop.
#[derive(Clone, Copy, Debug, PartialEq, Eq, Structural)]
pub enum MonitorEvent {
    /// A hotplug signal arrived before the current timeout elapsed.
    HotplugSignal,
    /// The long idle wait elapsed with no signal.
    PeriodicTimeout,
    /// The short debounce wait elapsed with no further signal: the burst
    /// has settled.
    SettleTimeout,
}

/// One transition of the monitor: the state to wait in next, and whether a
/// recheck (enumerate, classify, record) is due now.
#[derive(Clone, Copy, Debug, PartialEq, Eq, Structural)]
pub struct MonitorStep {
    pub next: MonitorState,
    pub recheck: bool,
}

/// The transition function. A signal enters or extends the debounce phase
/// and never triggers a recheck by itself; a recheck is due exactly when a
/// wait elapsed: the periodic timeout while idle, or the settle timeout
/// that ends a debounce phase.
pub open spec fn spec_step(state: MonitorState, event: MonitorEvent) -> MonitorStep {
    match (state, event) {
        (MonitorState::Idle, MonitorEvent::HotplugSignal) => MonitorStep {
            next: MonitorState::Debouncing,
            recheck: false,
        },
        (MonitorState::Idle, _) => MonitorStep { next: MonitorState::Idle, recheck: true },
        (MonitorState::Debouncing, MonitorEvent::HotplugSignal) => MonitorStep {
            next: MonitorState::Debouncing,
            recheck: false,
        },
        (MonitorState::Debouncing, _) => MonitorStep { next: MonitorState::Idle, recheck: true },
    }
}

pub fn step(state: MonitorState, event: MonitorEvent) -> (r: MonitorStep)
    ensures
        r == spec_step(state, event),
{
    match (state, event) {
        (MonitorState::Idle, MonitorEvent::HotplugSignal) => MonitorStep {
            next: MonitorState::Debouncing,
            recheck: false,
        },
        (MonitorState::Idle, _) => MonitorStep { next: MonitorState::Idle, recheck: true },
        (MonitorState::Debouncing, MonitorEvent::HotplugSignal) => MonitorStep {
            next: MonitorState::Debouncing,
            recheck: false,
        },
        (MonitorState::Debouncing, _) => MonitorStep { next: MonitorState::Idle, recheck: true },
    }
}

impl MonitorState {
    /// How long the loop blocks on the hotplug channel in this state, in
    /// milliseconds.
    pub open spec fn spec_wait_millis(self) -> u64 {
        match self {
            MonitorState::Idle => PERIODIC_RECHECK_MILLIS,
            MonitorState::Debouncing => SETTLE_MILLIS,
        }
    }

    pub fn wait_millis(self) -> (r: u64)
        ensures
            r == self.spec_wait_millis(),
    {
        match self {
            MonitorState::Idle => PERIODIC_RECHECK_MILLIS,
            MonitorState::Debouncing => SETTLE_MILLIS,
        }
    }
}

/// The state the machine is in after processing a trace of events.
pub open spec fn spec_run(state: MonitorState, events: Seq<MonitorEvent>) -> MonitorState
    decreases events.len(),
{
    if events.len() == 0 {
        state
    } else {
        spec_run(spec_step(state, events[0]).next, events.drop_first())
    }
}

/// How many rechecks a trace of events triggers from a given state.
pub open spec fn spec_recheck_count(state: MonitorState, events: Seq<MonitorEvent>) -> nat
    decreases events.len(),
{
    if events.len() == 0 {
        0
    } else {
        (if spec_step(state, events[0]).recheck {
            1nat
        } else {
            0nat
        }) + spec_recheck_count(spec_step(state, events[0]).next, events.drop_first())
    }
}

/// A burst of `n` hotplug signals, each arriving before the settle timeout
/// of its predecessor elapses, followed by the settle timeout that ends the
/// burst. Signals spaced closer than [`SETTLE_MILLIS`] produce exactly this
/// trace: no settle timeout can fire between two of them.
pub open spec fn spec_burst_trace(n: nat) -> Seq<MonitorEvent> {
    Seq::new(n, |i: int| MonitorEvent::HotplugSignal).push(MonitorEvent::SettleTimeout)
}

/// While debouncing, further signals keep the machine debouncing and
/// trigger no recheck.
proof fn lemma_signals_keep_debouncing(n: nat)
    ensures
        spec_run(MonitorState::Debouncing, Seq::new(n, |i: int| MonitorEvent::HotplugSignal))
            == MonitorState::Debouncing,
        spec_recheck_count(
            MonitorState::Debouncing,
            Seq::new(n, |i: int| MonitorEvent::HotplugSignal),
        ) == 0,
    decreases n,
{
    let signals = Seq::new(n, |i: int| MonitorEvent::HotplugSignal);
    if n > 0 {
        let shorter = Seq::new((n - 1) as nat, |i: int| MonitorEvent::HotplugSignal);
        assert(signals.drop_first() =~= shorter);
        lemma_signals_keep_debouncing((n - 1) as nat);
    }
}

/// Processing a trace and then one more event from wherever the trace ends.
proof fn lemma_run_push(state: MonitorState, events: Seq<MonitorEvent>, e: MonitorEvent)
    ensures
        spec_run(state, events.push(e)) == spec_step(spec_run(state, events), e).next,
        spec_recheck_count(state, events.push(e)) == spec_recheck_count(state, events) + (
        if spec_step(spec_run(state, events), e).recheck {
            1nat
        } else {
            0nat
        }),
    decreases events.len(),
{
    let p = events.push(e);
    if events.len() == 0 {
        assert(p[0] == e);
        assert(p.drop_first() =~= Seq::<MonitorEvent>::empty());
        reveal_with_fuel(spec_run, 2);
        reveal_with_fuel(spec_recheck_count, 2);
    } else {
        assert(p[0] == events[0]);
        assert(p.drop_first() =~= events.drop_first().push(e));
        lemma_run_push(spec_step(state, events[0]).next, events.drop_first(), e);
    }
}

/// Debounce law: from idle, a burst of one or more hotplug signals spaced
/// closer than the settle timeout triggers exactly one recheck — when the
/// burst settles — and returns the machine to idle.
pub proof fn lemma_debounce_burst(n: nat)
    requires
        n >= 1,
    ensures
        spec_recheck_count(MonitorState::Idle, spec_burst_trace(n)) == 1,
        spec_run(MonitorState::Idle, spec_burst_trace(n)) == MonitorState::Idle,
{
    let signals = Seq::new(n, |i: int| MonitorEvent::HotplugSignal);
    let rest = Seq::new((n - 1) as nat, |i: int| MonitorEvent::HotplugSignal);
    assert(signals.drop_first() =~= rest);
    lemma_signals_keep_debouncing((n - 1) as nat);
    assert(spec_run(MonitorState::Idle, signals) == MonitorState::Debouncing);
    assert(spec_recheck_count(MonitorState::Idle, signals) == 0);
    lemma_run_push(MonitorState::Idle, signals, MonitorEvent::SettleTimeout);
}

/// Liveness law: while idle with no hotplug signal at all, the wait lasts
/// at most [`PERIODIC_RECHECK_MILLIS`] and ends in a periodic timeout, and
/// that timeout always triggers a recheck. So absent any signal a recheck
/// occurs at least once per periodic interval.
pub proof fn lemma_periodic_recheck()
    ensures
        spec_step(MonitorState::Idle, MonitorEvent::PeriodicTimeout).recheck,
        spec_step(MonitorState::Idle, MonitorEvent::PeriodicTimeout).next == MonitorState::Idle,
        MonitorState::Idle.spec_wait_millis() == 120_000,
{
}

} // verus!
