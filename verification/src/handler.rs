//! The per-connection handler: destination selection and the one-way state
//! machine `Accepted -> DestinationChosen -> Connecting -> Relaying ->
//! Closed`.
//!
//! The machine is pure: a step takes the immutable configuration, the current
//! state and one event, and returns the next state together with the action
//! the driver must carry out (connect upstream, start the relay, close both
//! sockets, or nothing). All I/O — the recovery syscall, the upstream
//! connect and SOCKS5 handshake, the two byte-copy directions, the idle
//! timer — happens in the driver, which reports each completion back as an
//! event. Because a handler's run is a function of its own initial state and
//! its own events alone, concurrent connections cannot interfere; that is
//! proved below over interleaved event sequences.

use vstd::prelude::*;

use crate::addr::SockAddrV4;
use crate::recovery::RecoveryError;

verus! {

/// Reference idle/overall timeout bound: a connection on which no byte has
/// moved for this long is forcibly closed with a timed-out outcome.
pub const DEFAULT_TIMEOUT_MS: u64 = 60000;

/// The three resolved endpoints, immutable after startup and shared by value
/// across all handlers, and the relay timeout bound.
#[derive(Clone, Copy, PartialEq, Eq, Structural, Debug)]
pub struct Config {
    /// Endpoint the redirector accepts redirected connections on.
    pub listen: SockAddrV4,
    /// Endpoint of the upstream SOCKS5 proxy.
    pub proxy: SockAddrV4,
    /// Fallback destination, used when recovery fails or self-redirects.
    pub default_target: SockAddrV4,
    /// Milliseconds without forward progress after which the relay is
    /// forcibly terminated.
    pub timeout_ms: u64,
}

impl Config {
    /// A configuration is meaningful only with a positive timeout bound.
    pub open spec fn wf(self) -> bool {
        self.timeout_ms > 0
    }
}

/// One direction of the full-duplex relay.
#[derive(Clone, Copy, PartialEq, Eq, Structural, Debug)]
pub enum Direction {
    ClientToUpstream,
    UpstreamToClient,
}

/// Why a handler reached `Closed`. Every variant closes both sockets.
#[derive(Clone, Copy, PartialEq, Eq, Structural, Debug)]
pub enum Outcome {
    /// One relay direction reached end-of-stream; the other was abandoned.
    RelayDone { first: Direction },
    /// One relay direction failed with an I/O error; the other was abandoned.
    RelayFailed { first: Direction },
    /// The upstream connect or SOCKS5 handshake failed.
    UpstreamUnreachable,
    /// No byte moved in either direction within the timeout bound.
    TimedOut,
}

/// The handler's state. Each post-`Accepted` state carries the destination
/// chosen for this connection; it is chosen once and never changes.
#[derive(Clone, Copy, PartialEq, Eq, Structural, Debug)]
pub enum HandlerState {
    /// The connection was accepted; recovery has not finished yet.
    Accepted,
    /// The destination is fixed; the upstream attempt has not started.
    DestinationChosen { dest: SockAddrV4 },
    /// The upstream connect and handshake are in flight.
    Connecting { dest: SockAddrV4 },
    /// Bytes are being copied both ways; `idle_ms` is the time since the
    /// last forward progress.
    Relaying { dest: SockAddrV4, idle_ms: u64 },
    /// Terminal: both sockets are closed, whatever the path here was.
    Closed { dest: SockAddrV4, outcome: Outcome },
}

/// What the driver reports to the machine: the completion of one suspension
/// point of the connection's lifecycle.
#[derive(Clone, Copy, Debug)]
pub enum Event {
    /// The recovery query finished, successfully or not.
    RecoveryFinished { recovered: Result<SockAddrV4, RecoveryError> },
    /// The driver has launched the upstream connect and handshake.
    UpstreamStarted,
    /// The connector returned a live stream, positioned after the handshake.
    UpstreamEstablished,
    /// The upstream connect or handshake failed.
    UpstreamFailed,
    /// At least one byte moved in some direction: forward progress.
    DataMoved,
    /// `ms` milliseconds passed with no forward progress.
    IdleElapsed { ms: u64 },
    /// One copy direction terminated: end of stream if `clean`, an I/O
    /// error otherwise.
    DirectionEnded { dir: Direction, clean: bool },
}

/// What the driver must do after a step. `Wait` asks for nothing but the
/// next event.
#[derive(Clone, Copy, PartialEq, Eq, Structural, Debug)]
pub enum Action {
    Wait,
    /// Connect to the proxy and issue an unauthenticated SOCKS5 CONNECT for
    /// `dest`.
    ConnectUpstream { dest: SockAddrV4 },
    /// Start both copy directions and the idle timer.
    StartRelay,
    /// Close the client and upstream sockets, cancelling any copy still in
    /// flight.
    CloseBoth,
}

/// The fallback policy: the destination is the recovered address, unless
/// recovery failed or recovered the listener's own address — then it is the
/// configured default target.
pub open spec fn chosen_destination(
    recovered: Result<SockAddrV4, RecoveryError>,
    listen: SockAddrV4,
    default_target: SockAddrV4,
) -> SockAddrV4 {
    match recovered {
        Ok(a) => if a == listen {
            default_target
        } else {
            a
        },
        Err(_) => default_target,
    }
}

/// Applies the fallback policy once, to one recovery outcome.
pub fn choose_destination(
    recovered: Result<SockAddrV4, RecoveryError>,
    listen: SockAddrV4,
    default_target: SockAddrV4,
) -> (dest: SockAddrV4)
    ensures
        dest == chosen_destination(recovered, listen, default_target),
{
    match recovered {
        Ok(a) => if a == listen {
            default_target
        } else {
            a
        },
        Err(_) => default_target,
    }
}

impl HandlerState {
    /// States carry no junk: while relaying, the idle clock is strictly
    /// under the bound (at the bound the machine has already closed).
    pub open spec fn wf(self, cfg: Config) -> bool {
        match self {
            HandlerState::Relaying { idle_ms, .. } => idle_ms < cfg.timeout_ms,
            _ => true,
        }
    }

    /// How far along the one-way lifecycle a state is.
    pub open spec fn phase(self) -> int {
        match self {
            HandlerState::Accepted => 0,
            HandlerState::DestinationChosen { .. } => 1,
            HandlerState::Connecting { .. } => 2,
            HandlerState::Relaying { .. } => 3,
            HandlerState::Closed { .. } => 4,
        }
    }

    /// The destination this state carries, if one has been chosen.
    pub open spec fn destination(self) -> Option<SockAddrV4> {
        match self {
            HandlerState::Accepted => None,
            HandlerState::DestinationChosen { dest } => Some(dest),
            HandlerState::Connecting { dest } => Some(dest),
            HandlerState::Relaying { dest, .. } => Some(dest),
            HandlerState::Closed { dest, .. } => Some(dest),
        }
    }

    pub fn is_closed(&self) -> (r: bool)
        ensures
            r <==> self is Closed,
    {
        match self {
            HandlerState::Closed { .. } => true,
            _ => false,
        }
    }
}

/// The whole transition relation. An event that does not belong to the
/// current state changes nothing and asks for nothing; `Closed` is terminal.
pub open spec fn spec_step(cfg: Config, s: HandlerState, ev: Event) -> (HandlerState, Action) {
    match s {
        HandlerState::Accepted => match ev {
            Event::RecoveryFinished { recovered } => {
                let dest = chosen_destination(recovered, cfg.listen, cfg.default_target);
                (HandlerState::DestinationChosen { dest }, Action::ConnectUpstream { dest })
            },
            _ => (s, Action::Wait),
        },
        HandlerState::DestinationChosen { dest } => match ev {
            Event::UpstreamStarted => (HandlerState::Connecting { dest }, Action::Wait),
            _ => (s, Action::Wait),
        },
        HandlerState::Connecting { dest } => match ev {
            Event::UpstreamEstablished => (
                HandlerState::Relaying { dest, idle_ms: 0 },
                Action::StartRelay,
            ),
            Event::UpstreamFailed => (
                HandlerState::Closed { dest, outcome: Outcome::UpstreamUnreachable },
                Action::CloseBoth,
            ),
            _ => (s, Action::Wait),
        },
        HandlerState::Relaying { dest, idle_ms } => match ev {
            Event::DataMoved => (HandlerState::Relaying { dest, idle_ms: 0 }, Action::Wait),
            Event::IdleElapsed { ms } => if idle_ms + ms >= cfg.timeout_ms {
                (HandlerState::Closed { dest, outcome: Outcome::TimedOut }, Action::CloseBoth)
            } else {
                (HandlerState::Relaying { dest, idle_ms: (idle_ms + ms) as u64 }, Action::Wait)
            },
            Event::DirectionEnded { dir, clean } => (
                HandlerState::Closed {
                    dest,
                    outcome: if clean {
                        Outcome::RelayDone { first: dir }
                    } else {
                        Outcome::RelayFailed { first: dir }
                    },
                },
                Action::CloseBoth,
            ),
            _ => (s, Action::Wait),
        },
        HandlerState::Closed { .. } => (s, Action::Wait),
    }
}

/// The state every handler starts in, immediately after `accept`.
pub fn initial_state() -> (r: HandlerState)
    ensures
        r == HandlerState::Accepted,
{
    HandlerState::Accepted
}

/// One step of the handler: consumes one event, returns the next state and
/// the action the driver must perform.
pub fn step(cfg: &Config, s: HandlerState, ev: Event) -> (r: (HandlerState, Action))
    requires
        cfg.wf(),
        s.wf(*cfg),
    ensures
        r == spec_step(*cfg, s, ev),
        r.0.wf(*cfg),
{
    match s {
        HandlerState::Accepted => match ev {
            Event::RecoveryFinished { recovered } => {
                let dest = choose_destination(recovered, cfg.listen, cfg.default_target);
                (HandlerState::DestinationChosen { dest }, Action::ConnectUpstream { dest })
            },
            _ => (s, Action::Wait),
        },
        HandlerState::DestinationChosen { dest } => match ev {
            Event::UpstreamStarted => (HandlerState::Connecting { dest }, Action::Wait),
            _ => (s, Action::Wait),
        },
        HandlerState::Connecting { dest } => match ev {
            Event::UpstreamEstablished => (
                HandlerState::Relaying { dest, idle_ms: 0 },
                Action::StartRelay,
            ),
            Event::UpstreamFailed => (
                HandlerState::Closed { dest, outcome: Outcome::UpstreamUnreachable },
                Action::CloseBoth,
            ),
            _ => (s, Action::Wait),
        },
        HandlerState::Relaying { dest, idle_ms } => match ev {
            Event::DataMoved => (HandlerState::Relaying { dest, idle_ms: 0 }, Action::Wait),
            Event::IdleElapsed { ms } => if ms >= cfg.timeout_ms - idle_ms {
                (HandlerState::Closed { dest, outcome: Outcome::TimedOut }, Action::CloseBoth)
            } else {
                (HandlerState::Relaying { dest, idle_ms: idle_ms + ms }, Action::Wait)
            },
            Event::DirectionEnded { dir, clean } => (
                HandlerState::Closed {
                    dest,
                    outcome: if clean {
                        Outcome::RelayDone { first: dir }
                    } else {
                        Outcome::RelayFailed { first: dir }
                    },
                },
                Action::CloseBoth,
            ),
            _ => (s, Action::Wait),
        },
        HandlerState::Closed { .. } => (s, Action::Wait),
    }
}

/// Runs the machine from `s` through the events of `evs`, in order.
pub open spec fn run_steps(cfg: Config, s: HandlerState, evs: Seq<Event>) -> HandlerState
    decreases evs.len(),
{
    if evs.len() == 0 {
        s
    } else {
        run_steps(cfg, spec_step(cfg, s, evs[0]).0, evs.drop_first())
    }
}

/// Law: every transition is one-way. A step never moves a handler to an
/// earlier lifecycle phase, so no state is ever revisited.
pub proof fn lemma_transitions_one_way(cfg: Config, s: HandlerState, ev: Event)
    ensures
        spec_step(cfg, s, ev).0.phase() >= s.phase(),
{
}

/// Law: once a destination is chosen it is never mutated; every later state
/// carries the same one.
pub proof fn lemma_destination_stable_step(cfg: Config, s: HandlerState, ev: Event)
    requires
        s.destination() is Some,
    ensures
        spec_step(cfg, s, ev).0.destination() == s.destination(),
{
}

/// Law: `Closed` is terminal. No event moves a closed handler, and no
/// further action is asked of the driver: the handler closes exactly once.
pub proof fn lemma_closed_is_terminal(cfg: Config, s: HandlerState, ev: Event)
    requires
        s is Closed,
    ensures
        spec_step(cfg, s, ev) == (s, Action::Wait),
{
}

/// Law: a recovery result is consumed only in `Accepted`. Anywhere later it
/// changes nothing — recovery is never retried and a second result could
/// not overturn the chosen destination.
pub proof fn lemma_recovery_never_retried(
    cfg: Config,
    s: HandlerState,
    recovered: Result<SockAddrV4, RecoveryError>,
)
    requires
        !(s is Accepted),
    ensures
        spec_step(cfg, s, Event::RecoveryFinished { recovered }) == (s, Action::Wait),
{
}

/// Law: fallback on recovery failure. Whatever the platform error was, the
/// chosen destination is exactly the configured default target, the handler
/// moves on to connect there, and it never looks back at recovery.
pub proof fn lemma_fallback_on_recovery_failure(cfg: Config, e: RecoveryError)
    ensures
        chosen_destination(Err(e), cfg.listen, cfg.default_target) == cfg.default_target,
        spec_step(cfg, HandlerState::Accepted, Event::RecoveryFinished { recovered: Err(e) })
            == (
            HandlerState::DestinationChosen { dest: cfg.default_target },
            Action::ConnectUpstream { dest: cfg.default_target },
        ),
{
}

/// Law: self-redirect fallback. A recovered destination equal to the listen
/// address is replaced by the default target, never connected back to.
pub proof fn lemma_self_redirect_fallback(cfg: Config)
    ensures
        chosen_destination(Ok(cfg.listen), cfg.listen, cfg.default_target) == cfg.default_target,
        spec_step(
            cfg,
            HandlerState::Accepted,
            Event::RecoveryFinished { recovered: Ok(cfg.listen) },
        ) == (
            HandlerState::DestinationChosen { dest: cfg.default_target },
            Action::ConnectUpstream { dest: cfg.default_target },
        ),
{
}

/// Law: a recovered destination other than the listen address is kept as it
/// is — the fallback never fires on real redirected traffic.
pub proof fn lemma_recovered_destination_kept(cfg: Config, a: SockAddrV4)
    requires
        a != cfg.listen,
    ensures
        chosen_destination(Ok(a), cfg.listen, cfg.default_target) == a,
{
}

/// Law: the destination, once chosen, survives any run of further events.
pub proof fn lemma_destination_stable_run(cfg: Config, s: HandlerState, evs: Seq<Event>)
    requires
        s.destination() is Some,
    ensures
        run_steps(cfg, s, evs).destination() == s.destination(),
    decreases evs.len(),
{
    if evs.len() > 0 {
        lemma_destination_stable_step(cfg, s, evs[0]);
        lemma_destination_stable_run(cfg, spec_step(cfg, s, evs[0]).0, evs.drop_first());
    }
}

/// Law: exactly one destination per connection. The step that consumes the
/// recovery result fixes the destination by the fallback policy, and every
/// state the handler can ever reach afterwards carries exactly that
/// destination.
pub proof fn lemma_exactly_one_destination(
    cfg: Config,
    recovered: Result<SockAddrV4, RecoveryError>,
    evs: Seq<Event>,
)
    ensures
        run_steps(
            cfg,
            spec_step(cfg, HandlerState::Accepted, Event::RecoveryFinished { recovered }).0,
            evs,
        ).destination() == Some(chosen_destination(recovered, cfg.listen, cfg.default_target)),
{
    let s1 = spec_step(cfg, HandlerState::Accepted, Event::RecoveryFinished { recovered }).0;
    lemma_destination_stable_run(cfg, s1, evs);
}

/// Law: a closed handler stays closed through any run of further events.
pub proof fn lemma_closed_stays_closed(cfg: Config, s: HandlerState, evs: Seq<Event>)
    requires
        s is Closed,
    ensures
        run_steps(cfg, s, evs) == s,
    decreases evs.len(),
{
    if evs.len() > 0 {
        lemma_closed_is_terminal(cfg, s, evs[0]);
        lemma_closed_stays_closed(cfg, s, evs.drop_first());
    }
}

/// Law: relay termination symmetry. Whichever direction ends first — the
/// client's or the upstream's, cleanly or with an error — the very next
/// state is `Closed` and the driver is told to close both sockets at once;
/// the other direction is abandoned, not awaited.
pub proof fn lemma_relay_termination_symmetry(
    cfg: Config,
    dest: SockAddrV4,
    idle_ms: u64,
    dir: Direction,
    clean: bool,
)
    ensures
        spec_step(
            cfg,
            HandlerState::Relaying { dest, idle_ms },
            Event::DirectionEnded { dir, clean },
        ) == (
            HandlerState::Closed {
                dest,
                outcome: if clean {
                    Outcome::RelayDone { first: dir }
                } else {
                    Outcome::RelayFailed { first: dir }
                },
            },
            Action::CloseBoth,
        ),
{
}

/// True when every event of the sequence is an idle tick: no byte moved and
/// nothing else happened.
pub open spec fn all_idle(evs: Seq<Event>) -> bool {
    forall|i: int| 0 <= i < evs.len() ==> evs[i] is IdleElapsed
}

/// The total idle time the sequence reports, in milliseconds.
pub open spec fn idle_sum(evs: Seq<Event>) -> int
    decreases evs.len(),
{
    if evs.len() == 0 {
        0
    } else {
        (match evs[0] {
            Event::IdleElapsed { ms } => ms as int,
            _ => 0,
        }) + idle_sum(evs.drop_first())
    }
}

/// Law: timeout enforcement. If nothing but idle time accumulates while
/// relaying, then as soon as the idle clock plus the reported ticks reach
/// the configured bound, the handler is closed with a timed-out outcome —
/// it cannot idle past the bound, let alone indefinitely.
pub proof fn lemma_timeout_enforced(
    cfg: Config,
    dest: SockAddrV4,
    idle_ms: u64,
    evs: Seq<Event>,
)
    requires
        cfg.wf(),
        idle_ms < cfg.timeout_ms,
        all_idle(evs),
        idle_ms + idle_sum(evs) >= cfg.timeout_ms,
    ensures
        run_steps(cfg, HandlerState::Relaying { dest, idle_ms }, evs) == (HandlerState::Closed {
            dest,
            outcome: Outcome::TimedOut,
        }),
    decreases evs.len(),
{
    let rest = evs.drop_first();
    assert(all_idle(rest)) by {
        assert(forall|i: int| 0 <= i < rest.len() ==> rest[i] == evs[i + 1]);
    }
    match evs[0] {
        Event::IdleElapsed { ms } => {
            if idle_ms + ms >= cfg.timeout_ms {
                lemma_closed_stays_closed(
                    cfg,
                    HandlerState::Closed { dest, outcome: Outcome::TimedOut },
                    rest,
                );
            } else {
                lemma_timeout_enforced(cfg, dest, (idle_ms + ms) as u64, rest);
            }
        },
        _ => {},
    }
}

/// How many upstream connection attempts a run asks the driver for.
pub open spec fn connect_attempts(cfg: Config, s: HandlerState, evs: Seq<Event>) -> int
    decreases evs.len(),
{
    if evs.len() == 0 {
        0
    } else {
        let r = spec_step(cfg, s, evs[0]);
        (if r.1 is ConnectUpstream {
            1int
        } else {
            0int
        }) + connect_attempts(cfg, r.0, evs.drop_first())
    }
}

/// Law: an upstream connection is only ever requested by the step that
/// leaves `Accepted`; no later state asks for one.
pub proof fn lemma_no_connect_after_accepted(cfg: Config, s: HandlerState, evs: Seq<Event>)
    requires
        !(s is Accepted),
    ensures
        connect_attempts(cfg, s, evs) == 0,
    decreases evs.len(),
{
    if evs.len() > 0 {
        lemma_transitions_one_way(cfg, s, evs[0]);
        lemma_no_connect_after_accepted(cfg, spec_step(cfg, s, evs[0]).0, evs.drop_first());
    }
}

/// Law: at most one upstream connection is attempted per connection,
/// whatever events a run delivers.
pub proof fn lemma_at_most_one_upstream_attempt(cfg: Config, evs: Seq<Event>)
    ensures
        connect_attempts(cfg, HandlerState::Accepted, evs) <= 1,
    decreases evs.len(),
{
    if evs.len() > 0 {
        let r = spec_step(cfg, HandlerState::Accepted, evs[0]);
        if r.0 is Accepted {
            lemma_at_most_one_upstream_attempt(cfg, evs.drop_first());
        } else {
            lemma_no_connect_after_accepted(cfg, r.0, evs.drop_first());
        }
    }
}

/// Law: nothing is relayed before a destination is chosen and the upstream
/// connection succeeds. The relay starts only on an established upstream,
/// and a relaying state is reachable only through one.
pub proof fn lemma_relay_needs_established_upstream(cfg: Config, s: HandlerState, ev: Event)
    ensures
        spec_step(cfg, s, ev).1 is StartRelay ==> s is Connecting && ev is UpstreamEstablished,
        spec_step(cfg, s, ev).0 is Relaying ==> s is Relaying || (s is Connecting
            && ev is UpstreamEstablished),
{
}

/// Law: reaching `Closed` always closes both sockets — the step that enters
/// `Closed` is exactly the step that orders both sockets closed.
pub proof fn lemma_closing_closes_both_sockets(cfg: Config, s: HandlerState, ev: Event)
    ensures
        (spec_step(cfg, s, ev).0 is Closed && !(s is Closed)) <==> spec_step(
            cfg,
            s,
            ev,
        ).1 is CloseBoth,
{
}

/// Projects, from an interleaved log of many connections' events, the
/// subsequence addressed to connection `i`, in order.
pub open spec fn events_for(evs: Seq<(int, Event)>, i: int) -> Seq<Event>
    decreases evs.len(),
{
    if evs.len() == 0 {
        Seq::empty()
    } else {
        let rest = events_for(evs.drop_first(), i);
        if evs[0].0 == i {
            seq![evs[0].1] + rest
        } else {
            rest
        }
    }
}

/// Runs a pool of independent handlers over one interleaved event log: each
/// event is delivered to the handler it is addressed to, in log order.
pub open spec fn run_pool(
    cfg: Config,
    pool: Map<int, HandlerState>,
    evs: Seq<(int, Event)>,
) -> Map<int, HandlerState>
    decreases evs.len(),
{
    if evs.len() == 0 {
        pool
    } else {
        let id = evs[0].0;
        let next = if pool.dom().contains(id) {
            pool.insert(id, spec_step(cfg, pool[id], evs[0].1).0)
        } else {
            pool
        };
        run_pool(cfg, next, evs.drop_first())
    }
}

/// Law: no cross-connection interference. However the events of concurrent
/// connections interleave, each handler ends exactly where it would have
/// ended running alone on its own events: one connection's events have no
/// effect on another's state.
pub proof fn lemma_no_cross_connection_interference(
    cfg: Config,
    pool: Map<int, HandlerState>,
    evs: Seq<(int, Event)>,
    i: int,
)
    requires
        pool.dom().contains(i),
    ensures
        run_pool(cfg, pool, evs).dom().contains(i),
        run_pool(cfg, pool, evs)[i] == run_steps(cfg, pool[i], events_for(evs, i)),
    decreases evs.len(),
{
    if evs.len() > 0 {
        let id = evs[0].0;
        let ev = evs[0].1;
        let rest = evs.drop_first();
        if id == i {
            let s1 = spec_step(cfg, pool[i], ev).0;
            let next = pool.insert(i, s1);
            lemma_no_cross_connection_interference(cfg, next, rest, i);
            assert((seq![ev] + events_for(rest, i)).drop_first() =~= events_for(rest, i));
            assert((seq![ev] + events_for(rest, i))[0] == ev);
        } else {
            let next = if pool.dom().contains(id) {
                pool.insert(id, spec_step(cfg, pool[id], ev).0)
            } else {
                pool
            };
            assert(next.dom().contains(i));
            assert(next[i] == pool[i]);
            lemma_no_cross_connection_interference(cfg, next, rest, i);
        }
    }
}

} // verus!
