//! Tests of the connection manager: the power-up/handshake/reconnect state
//! machine and its failure-counting recovery policy.

use kb_driver::connection::{Connection, LinkErrorKind, LinkedEvent, Phase};

fn linked_connection() -> Connection {
    let mut conn = Connection::new();
    conn.power_up();
    let linked = conn.handshake_result(Some((0xFA, 0xFD)));
    assert!(linked);
    conn
}

#[test]
fn starts_powered_down() {
    let conn = Connection::new();
    assert_eq!(conn.phase(), Phase::PoweredDown);
    assert_eq!(conn.failure_count(), 0);
}

#[test]
fn power_up_hands_out_cold_toggle() {
    let mut conn = Connection::new();
    let p = conn.power_up();
    assert_eq!(conn.phase(), Phase::Handshaking);
    assert_eq!(p.settle_ms, 15);
    assert!(p.power_on);
    assert_eq!(p.timeout_ms, 100);
    assert_eq!(conn.toggle_params(), p);
}

#[test]
fn correct_token_links() {
    let mut conn = Connection::new();
    conn.power_up();
    let linked = conn.handshake_result(Some((0xFA, 0xFD)));
    assert!(linked);
    assert_eq!(conn.phase(), Phase::Linked);
    assert_eq!(conn.failure_count(), 0);
}

#[test]
fn wrong_token_keeps_handshaking() {
    let mut conn = Connection::new();
    conn.power_up();
    assert!(!conn.handshake_result(Some((0xFD, 0xFA))));
    assert_eq!(conn.phase(), Phase::Handshaking);
    assert!(!conn.handshake_result(Some((0x12, 0x34))));
    assert_eq!(conn.phase(), Phase::Handshaking);
    assert!(!conn.handshake_result(None));
    assert_eq!(conn.phase(), Phase::Handshaking);
    // cold-start retries are unbounded and never touch the failure counter
    assert_eq!(conn.failure_count(), 0);
    // and the next attempt may still succeed
    assert!(conn.handshake_result(Some((0xFA, 0xFD))));
    assert_eq!(conn.phase(), Phase::Linked);
}

#[test]
fn bytes_reach_the_decoder_while_linked() {
    let mut conn = linked_connection();
    let r = conn.on_byte(17); // A down
    assert_eq!(r.keycodes, [4, 0, 0, 0, 0, 0]);
    let r = conn.on_byte(0x91); // A up
    assert_eq!(r.keycodes, [0, 0, 0, 0, 0, 0]);
}

#[test]
fn detect_edge_enters_recovery_with_warm_toggle() {
    let mut conn = linked_connection();
    let p = conn.interrupted(LinkedEvent::DetectEdge);
    assert_eq!(conn.phase(), Phase::Recovering);
    assert_eq!(p.settle_ms, 15);
    assert!(!p.power_on);
    assert_eq!(p.timeout_ms, 30);
    assert_eq!(conn.toggle_params(), p);
}

#[test]
fn idle_timeout_enters_recovery() {
    let mut conn = linked_connection();
    conn.interrupted(LinkedEvent::IdleTimeout);
    assert_eq!(conn.phase(), Phase::Recovering);
}

#[test]
fn recovery_keeps_key_state_below_threshold() {
    let mut conn = linked_connection();
    conn.on_byte(17); // A held
    conn.interrupted(LinkedEvent::DetectEdge);
    for expected in 1u32..=4u32 {
        assert!(!conn.handshake_result(None));
        assert_eq!(conn.failure_count(), expected);
        assert_eq!(conn.current_report().keycodes, [4, 0, 0, 0, 0, 0]);
    }
    // a success before the threshold keeps the held key
    assert!(conn.handshake_result(Some((0xFA, 0xFD))));
    assert_eq!(conn.phase(), Phase::Linked);
    assert_eq!(conn.failure_count(), 0);
    assert_eq!(conn.current_report().keycodes, [4, 0, 0, 0, 0, 0]);
}

#[test]
fn five_failed_reconnects_reset_the_decoder() {
    let mut conn = linked_connection();
    conn.on_byte(17); // A held
    conn.on_byte(88); // left shift held
    assert_eq!(conn.current_report().modifier, 0x02);
    conn.interrupted(LinkedEvent::DetectEdge);
    for _ in 0..4 {
        assert!(!conn.handshake_result(Some((0x00, 0x00))));
    }
    assert_eq!(conn.current_report().keycodes, [4, 225, 0, 0, 0, 0]);
    assert!(!conn.handshake_result(Some((0x00, 0x00))));
    // the fifth consecutive failure forces the all-released default
    assert_eq!(conn.failure_count(), 5);
    let r = conn.current_report();
    assert_eq!(r.keycodes, [0, 0, 0, 0, 0, 0]);
    assert_eq!(r.modifier, 0);
}

#[test]
fn failure_counter_saturates_at_threshold() {
    let mut conn = linked_connection();
    conn.interrupted(LinkedEvent::DetectEdge);
    for _ in 0..9 {
        assert!(!conn.handshake_result(None));
        assert_eq!(conn.phase(), Phase::Recovering);
    }
    assert_eq!(conn.failure_count(), 5);
    assert!(conn.handshake_result(Some((0xFA, 0xFD))));
    assert_eq!(conn.failure_count(), 0);
    assert_eq!(conn.phase(), Phase::Linked);
}

#[test]
fn link_errors_leave_the_session_alone() {
    let mut conn = linked_connection();
    conn.on_byte(17);
    let before = conn.current_report();
    for kind in [
        LinkErrorKind::Framing,
        LinkErrorKind::Noise,
        LinkErrorKind::Overrun,
        LinkErrorKind::Parity,
        LinkErrorKind::BufferTooLong,
        LinkErrorKind::Unknown,
    ] {
        conn.on_link_error(kind);
        assert_eq!(conn.phase(), Phase::Linked);
        assert_eq!(conn.current_report(), before);
        assert_eq!(conn.failure_count(), 0);
    }
}
