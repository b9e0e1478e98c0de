//! End-to-end walks of one connection's lifecycle, from the raw recovery
//! results to the terminal state.

use transocks::addr::SockAddrV4;
use transocks::handler::{
    initial_state, step, Action, Config, Direction, Event, HandlerState, Outcome,
    DEFAULT_TIMEOUT_MS,
};
use transocks::recovery::interpret_recovery;

fn cfg() -> Config {
    Config {
        listen: SockAddrV4 { ip: 0x7F00_0001, port: 10800 },
        proxy: SockAddrV4 { ip: 0x7F00_0001, port: 1080 },
        default_target: SockAddrV4 { ip: 0x7F00_0001, port: 53530 },
        timeout_ms: DEFAULT_TIMEOUT_MS,
    }
}

#[test]
fn redirected_connection_relays_to_recovered_destination() {
    let c = cfg();
    // The kernel record holds 93.184.216.34:80 in network byte order.
    let recovered = interpret_recovery(0, 0, 93, 184, 216, 34, 0, 80);
    let expected = SockAddrV4 { ip: 0x5DB8_D822, port: 80 };
    assert_eq!(recovered, Ok(expected));

    let s0 = initial_state();
    let (s1, a1) = step(&c, s0, Event::RecoveryFinished { recovered });
    // The SOCKS5 CONNECT is issued for exactly the recovered endpoint.
    assert_eq!(a1, Action::ConnectUpstream { dest: expected });
    let (s2, _) = step(&c, s1, Event::UpstreamStarted);
    let (s3, a3) = step(&c, s2, Event::UpstreamEstablished);
    assert_eq!(a3, Action::StartRelay);
    assert_eq!(s3, HandlerState::Relaying { dest: expected, idle_ms: 0 });
    // Request and response bytes move; then the upstream closes first.
    let (s4, _) = step(&c, s3, Event::DataMoved);
    let (s5, a5) = step(
        &c,
        s4,
        Event::DirectionEnded { dir: Direction::UpstreamToClient, clean: true },
    );
    // The client connection is closed at once, not after a second wait.
    assert_eq!(a5, Action::CloseBoth);
    assert_eq!(
        s5,
        HandlerState::Closed {
            dest: expected,
            outcome: Outcome::RelayDone { first: Direction::UpstreamToClient },
        }
    );
}

#[test]
fn recovery_failure_connects_to_default_target() {
    let c = cfg();
    // The platform call failed; the record fields are meaningless.
    let recovered = interpret_recovery(-1, 95, 0, 0, 0, 0, 0, 0);
    assert!(recovered.is_err());

    let (s1, a1) = step(&c, initial_state(), Event::RecoveryFinished { recovered });
    // The handler connects to the configured default target; the failure is
    // not surfaced to the client as a closed connection.
    assert_eq!(a1, Action::ConnectUpstream { dest: c.default_target });
    assert_eq!(s1, HandlerState::DestinationChosen { dest: c.default_target });
    assert!(!s1.is_closed());
}
