use pico_wand::cycle::{Action, Controller, Event, Stage, HOLD_MS, SETTLE_MS, ADDRESS_POLL_MS};
use pico_wand::feedback::{padded, render, CyclePhase, MotionState, TEXT_WIDTH};
use pico_wand::inbound::packet_text;
use pico_wand::notify::{fixed_endpoint, notification, payload, NetworkEndpoint, LOCAL_PORT, PEER_PORT};

fn peer() -> NetworkEndpoint {
    NetworkEndpoint { peer_addr: (192, 168, 43, 7), peer_port: 1234, local_port: 1234 }
}

/// Drives a fresh controller through a successful connection.
fn connected() -> Controller {
    let mut c = Controller::new();
    assert_eq!(c.action(), Action::Join);
    assert_eq!(c.step(Event::Joined), Action::CheckAddress);
    assert_eq!(c.step(Event::AddressReady), Action::Bind { port: 1234 });
    c
}

/// Runs the first cycle with the given reading, up to the arbitration.
fn after_first_cycle(reading: bool) -> Controller {
    let mut c = connected();
    assert_eq!(c.step(Event::Bound), Action::Sleep { ms: 300 });
    assert_eq!(c.step(Event::Elapsed), Action::ReadMotion);
    assert_eq!(c.step(Event::Motion(reading)), Action::Draw { text: "Welcome" });
    assert_eq!(c.step(Event::Drawn), Action::Sleep { ms: 5000 });
    assert_eq!(c.step(Event::Elapsed), Action::AwaitEvent);
    c
}

#[test]
fn render_table() {
    assert_eq!(render(CyclePhase::FirstRun, MotionState::Up), "Welcome");
    assert_eq!(render(CyclePhase::FirstRun, MotionState::Down), "Welcome");
    assert_eq!(render(CyclePhase::Pending, MotionState::Up), "Rolling up");
    assert_eq!(render(CyclePhase::Pending, MotionState::Down), "Rolling down");
    assert_eq!(render(CyclePhase::Settled, MotionState::Up), "Rolled up!");
    assert_eq!(render(CyclePhase::Settled, MotionState::Down), "Rolled down!");
}

#[test]
fn render_is_repeatable() {
    for p in [CyclePhase::FirstRun, CyclePhase::Pending, CyclePhase::Settled] {
        for m in [MotionState::Up, MotionState::Down] {
            assert_eq!(render(p, m), render(p, m));
        }
    }
}

#[test]
fn motion_from_reading() {
    assert_eq!(MotionState::from_reading(true), MotionState::Up);
    assert_eq!(MotionState::from_reading(false), MotionState::Down);
}

#[test]
fn payloads() {
    assert_eq!(payload(MotionState::Up), "roll:up");
    assert_eq!(payload(MotionState::Down), "roll:down");
    assert_eq!(notification(CyclePhase::FirstRun, MotionState::Up), None);
    assert_eq!(notification(CyclePhase::FirstRun, MotionState::Down), None);
    assert_eq!(notification(CyclePhase::Pending, MotionState::Up), Some("roll:up"));
    assert_eq!(notification(CyclePhase::Settled, MotionState::Down), Some("roll:down"));
}

#[test]
fn endpoint_is_fixed() {
    assert_eq!(fixed_endpoint(), peer());
    assert_eq!(PEER_PORT, 1234);
    assert_eq!(LOCAL_PORT, 1234);
}

#[test]
fn padding_covers_longest_text() {
    assert_eq!(padded("Rolling up", TEXT_WIDTH), "Rolling up  ");
    assert_eq!(padded("Welcome", TEXT_WIDTH), "Welcome     ");
    assert_eq!(padded("Rolled down!", TEXT_WIDTH), "Rolled down!");
    assert_eq!(padded("longer than twelve", TEXT_WIDTH), "longer than twelve");
    assert_eq!(padded("", 3), "   ");
}

#[test]
fn packet_text_is_trimmed() {
    assert_eq!(packet_text(b"  hello \r\n"), Some(String::from("hello")));
    assert_eq!(packet_text(b"roll:up"), Some(String::from("roll:up")));
    assert_eq!(packet_text(b""), Some(String::new()));
    assert_eq!(packet_text(b" \t "), Some(String::new()));
}

#[test]
fn packet_text_rejects_invalid_utf8() {
    assert_eq!(packet_text(&[0x68, 0xff, 0x69]), None);
    assert_eq!(packet_text(&[0xc3]), None);
}

#[test]
fn scenario_first_cycle_shows_welcome_and_sends_nothing() {
    let c = after_first_cycle(false);
    assert_eq!(c.stage, Stage::Arbitrating);
    assert_eq!(c.phase, CyclePhase::Pending);
}

#[test]
fn scenario_second_cycle_rolls_up() {
    let mut c = after_first_cycle(false);
    assert_eq!(c.step(Event::Override), Action::Bind { port: 1234 });
    assert_eq!(c.step(Event::Bound), Action::Sleep { ms: SETTLE_MS });
    assert_eq!(c.step(Event::Elapsed), Action::ReadMotion);
    assert_eq!(c.step(Event::Motion(true)), Action::Draw { text: "Rolling up" });
    assert_eq!(c.phase, CyclePhase::Pending);
    assert_eq!(c.step(Event::Drawn), Action::Send { payload: "roll:up", endpoint: peer() });
    assert_eq!(c.step(Event::Sent), Action::Sleep { ms: 5000 });
    assert_eq!(HOLD_MS, 5000);
    assert_eq!(c.step(Event::Elapsed), Action::Draw { text: "Rolled up!" });
    assert_eq!(c.phase, CyclePhase::Settled);
    assert_eq!(c.step(Event::Drawn), Action::AwaitEvent);
}

#[test]
fn later_cycle_rolls_down_and_survives_send_failure() {
    let mut c = after_first_cycle(true);
    assert_eq!(c.step(Event::Packet), Action::Bind { port: 1234 });
    c.step(Event::Bound);
    c.step(Event::Elapsed);
    assert_eq!(c.step(Event::Motion(false)), Action::Draw { text: "Rolling down" });
    assert_eq!(c.step(Event::Drawn), Action::Send { payload: "roll:down", endpoint: peer() });
    assert_eq!(c.step(Event::SendFailed), Action::Sleep { ms: 5000 });
    assert_eq!(c.step(Event::Elapsed), Action::Draw { text: "Rolled down!" });
    assert_eq!(c.step(Event::Drawn), Action::AwaitEvent);
    assert_eq!(c.step(Event::ReceiveFailed), Action::Bind { port: 1234 });
}

#[test]
fn scenario_join_retried_and_address_polled() {
    let mut c = Controller::new();
    assert_eq!(c.step(Event::JoinFailed), Action::Join);
    assert_eq!(c.step(Event::JoinFailed), Action::Join);
    assert_eq!(c.step(Event::Joined), Action::CheckAddress);
    assert_eq!(c.step(Event::AddressNotReady), Action::Sleep { ms: ADDRESS_POLL_MS });
    assert_eq!(ADDRESS_POLL_MS, 100);
    assert_eq!(c.step(Event::Elapsed), Action::CheckAddress);
    assert_eq!(c.step(Event::AddressNotReady), Action::Sleep { ms: 100 });
    assert_eq!(c.step(Event::Elapsed), Action::CheckAddress);
    assert_eq!(c.step(Event::AddressReady), Action::Bind { port: 1234 });
    assert_eq!(c.phase, CyclePhase::FirstRun);
}

#[test]
fn scenario_override_wins_arbitration() {
    let mut c = after_first_cycle(true);
    let before = c;
    assert_eq!(c.step(Event::Override), Action::Bind { port: 1234 });
    assert_eq!(c.phase, before.phase);
    assert_eq!(c.motion, before.motion);
    c.step(Event::Bound);
    c.step(Event::Elapsed);
    c.step(Event::Motion(true));
    c.step(Event::Drawn);
    c.step(Event::Sent);
    c.step(Event::Elapsed);
    assert_eq!(c.step(Event::Drawn), Action::AwaitEvent);
    assert_eq!(c.step(Event::Packet), Action::Bind { port: 1234 });
}

#[test]
fn arbitration_ignores_other_events() {
    let mut c = after_first_cycle(false);
    let before = c;
    assert_eq!(c.step(Event::Elapsed), Action::AwaitEvent);
    assert_eq!(c.step(Event::Drawn), Action::AwaitEvent);
    assert_eq!(c, before);
}

#[test]
fn failed_bind_rebinds_same_port() {
    let mut c = connected();
    assert_eq!(c.step(Event::BindFailed), Action::Bind { port: 1234 });
    assert_eq!(c.step(Event::BindFailed), Action::Bind { port: 1234 });
    assert_eq!(c.stage, Stage::Binding);
    assert_eq!(c.step(Event::Bound), Action::Sleep { ms: 300 });
}

#[test]
fn phase_never_returns_to_first_run() {
    let mut c = after_first_cycle(false);
    let events = [
        Event::Override, Event::BindFailed, Event::Bound, Event::Elapsed, Event::Motion(true),
        Event::Drawn, Event::Sent, Event::Elapsed, Event::Drawn, Event::Packet, Event::Joined,
    ];
    for _ in 0..3 {
        for e in events {
            c.step(e);
            assert_ne!(c.phase, CyclePhase::FirstRun);
            assert_ne!(c.stage, Stage::Joining);
        }
    }
}

#[test]
fn first_cycle_never_sends() {
    for reading in [true, false] {
        let mut c = Controller::new();
        let events = [
            Event::Joined, Event::AddressReady, Event::Bound, Event::Elapsed,
            Event::Motion(reading), Event::Drawn, Event::Sent, Event::Elapsed,
        ];
        for e in events {
            let a = c.step(e);
            assert!(!matches!(a, Action::Send { .. }));
        }
    }
}
