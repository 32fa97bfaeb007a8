use vstd::prelude::*;

verus! {

/// Milliseconds to wait after a failed connection attempt before the next one.
pub const RETRY_DELAY_MS: u64 = 1000;

/// Where the start-up connection to the database stands.
#[derive(Clone, Copy, Debug, PartialEq, Eq, Structural)]
pub enum BootPhase {
    Disconnected,
    Connecting,
    Connected,
}

/// What the process does next during start-up.
#[derive(Clone, Copy, Debug, PartialEq, Eq, Structural)]
pub enum BootAction {
    /// Stop: the connection string is not configured.
    Abort,
    /// Try to build the connection pool.
    Connect,
    /// Sleep this many milliseconds.
    Wait(u64),
    /// Start serving requests.
    Serve,
    /// Nothing to do for this event in this phase.
    Ignore,
}

/// What happened since the last action.
#[derive(Clone, Copy, Debug, PartialEq, Eq, Structural)]
pub enum BootEvent {
    ConnectSucceeded,
    ConnectFailed,
    WaitElapsed,
}

pub open spec fn boot_next(phase: BootPhase, event: BootEvent) -> (BootPhase, BootAction) {
    match (phase, event) {
        (BootPhase::Connecting, BootEvent::ConnectSucceeded) => (BootPhase::Connected, BootAction::Serve),
        (BootPhase::Connecting, BootEvent::ConnectFailed) => (
            BootPhase::Disconnected,
            BootAction::Wait(RETRY_DELAY_MS),
        ),
        (BootPhase::Disconnected, BootEvent::WaitElapsed) => (BootPhase::Connecting, BootAction::Connect),
        _ => (phase, BootAction::Ignore),
    }
}

/// The first step of start-up: without a connection string the process aborts
/// and never retries; with one it starts connecting.
pub fn boot_start(config_present: bool) -> (r: (BootPhase, BootAction))
    ensures
        config_present ==> r == (BootPhase::Connecting, BootAction::Connect),
        !config_present ==> r == (BootPhase::Disconnected, BootAction::Abort),
{
    if config_present {
        (BootPhase::Connecting, BootAction::Connect)
    } else {
        (BootPhase::Disconnected, BootAction::Abort)
    }
}

/// The single transition rule of start-up: a failed attempt waits a fixed delay and
/// tries again, with no cap; a successful one starts serving.
pub fn boot_step(phase: BootPhase, event: BootEvent) -> (r: (BootPhase, BootAction))
    ensures
        r == boot_next(phase, event),
{
    match (phase, event) {
        (BootPhase::Connecting, BootEvent::ConnectSucceeded) => (BootPhase::Connected, BootAction::Serve),
        (BootPhase::Connecting, BootEvent::ConnectFailed) => (
            BootPhase::Disconnected,
            BootAction::Wait(RETRY_DELAY_MS),
        ),
        (BootPhase::Disconnected, BootEvent::WaitElapsed) => (BootPhase::Connecting, BootAction::Connect),
        _ => (phase, BootAction::Ignore),
    }
}

/// The phase reached and the actions taken on a run of events.
pub open spec fn boot_run(phase: BootPhase, events: Seq<BootEvent>) -> (BootPhase, Seq<BootAction>)
    decreases events.len(),
{
    if events.len() == 0 {
        (phase, seq![])
    } else {
        let (p, a) = boot_next(phase, events[0]);
        let (q, rest) = boot_run(p, events.drop_first());
        (q, seq![a] + rest)
    }
}

/// The events of `n` failed attempts, each followed by its wait, then a successful one.
pub open spec fn failing_then_up(n: nat) -> Seq<BootEvent>
    decreases n,
{
    if n == 0 {
        seq![BootEvent::ConnectSucceeded]
    } else {
        seq![BootEvent::ConnectFailed, BootEvent::WaitElapsed] + failing_then_up((n - 1) as nat)
    }
}

/// The actions of `n` retries: each waits the fixed delay, then connects again.
pub open spec fn retries(n: nat) -> Seq<BootAction>
    decreases n,
{
    if n == 0 {
        seq![]
    } else {
        seq![BootAction::Wait(RETRY_DELAY_MS), BootAction::Connect] + retries((n - 1) as nat)
    }
}

/// Against a database that refuses `n` times and then accepts, start-up retries exactly
/// `n` times, each after the fixed delay, and serves only once connected.
pub proof fn retries_until_connected(n: nat)
    ensures
        boot_run(BootPhase::Connecting, failing_then_up(n)) == (
            BootPhase::Connected,
            retries(n).push(BootAction::Serve),
        ),
        retries(n).len() == 2 * n,
        forall|i: int| 0 <= i < retries(n).len() ==> #[trigger] retries(n)[i] == (
            if i % 2 == 0 { BootAction::Wait(RETRY_DELAY_MS) } else { BootAction::Connect }),
    decreases n,
{
    if n == 0 {
        let evs = failing_then_up(0);
        assert(evs.drop_first() =~= Seq::<BootEvent>::empty());
        assert(retries(0).push(BootAction::Serve) =~= seq![BootAction::Serve]);
        assert(evs[0] == BootEvent::ConnectSucceeded);
        assert(boot_run(BootPhase::Connected, evs.drop_first()) == (BootPhase::Connected, Seq::<BootAction>::empty()));
        assert(seq![BootAction::Serve] + Seq::<BootAction>::empty() =~= seq![BootAction::Serve]);
    } else {
        let m = (n - 1) as nat;
        retries_until_connected(m);
        let evs = failing_then_up(n);
        assert(evs.drop_first() =~= seq![BootEvent::WaitElapsed] + failing_then_up(m));
        assert(evs.drop_first().drop_first() =~= failing_then_up(m));
        assert(evs[0] == BootEvent::ConnectFailed);
        assert(evs.drop_first()[0] == BootEvent::WaitElapsed);
        let tail = boot_run(BootPhase::Disconnected, evs.drop_first());
        assert(tail == (BootPhase::Connected, seq![BootAction::Connect] + retries(m).push(BootAction::Serve)));
        let r = retries(n);
        assert(r.push(BootAction::Serve) =~= seq![BootAction::Wait(RETRY_DELAY_MS)]
            + (seq![BootAction::Connect] + retries(m).push(BootAction::Serve)));
        assert forall|i: int| 0 <= i < r.len() implies #[trigger] r[i] == (
            if i % 2 == 0 { BootAction::Wait(RETRY_DELAY_MS) } else { BootAction::Connect }) by {
            if i >= 2 {
                assert(r[i] == retries(m)[i - 2]);
            }
        }
    }
}

} // verus!
