use saya::addr::ClientAddr;
use saya::proxy::{datagram_bytes, ProxyCore, CHECK_INTERVAL_SECS, TIMEOUT_SECS};

fn addr(ip: u128, port: u16) -> ClientAddr {
    ClientAddr { is_v6: false, ip, port }
}

#[test]
fn payload_is_forwarded_byte_for_byte() {
    let mut buf = [0u8; 64];
    buf[0] = 0x10;
    buf[1] = 0xfe;
    buf[2] = 0x00;
    buf[3] = 0x7f;
    buf[4] = 0xab;
    buf[5] = 0xcd;
    let sent = datagram_bytes(&buf, 5);
    assert_eq!(sent, vec![0x10, 0xfe, 0x00, 0x7f, 0xab]);
}

#[test]
fn empty_datagram_stays_empty() {
    let buf = [0u8; 16];
    let sent = datagram_bytes(&buf, 0);
    assert_eq!(sent, Vec::<u8>::new());
}

#[test]
fn reply_datagram_byte_for_byte() {
    let mut buf = [0u8; 8];
    for (i, b) in buf.iter_mut().enumerate() {
        *b = (255 - i) as u8;
    }
    let sent = datagram_bytes(&buf, 8);
    assert_eq!(sent, vec![255, 254, 253, 252, 251, 250, 249, 248]);
}

#[test]
fn two_clients_get_two_sessions_with_own_reply_targets() {
    let mut core = ProxyCore::new();
    let a = addr(0x0a000001, 40001);
    let b = addr(0x0a000002, 40002);
    let oa = core.handle_packet(a, 10);
    let ob = core.handle_packet(b, 11);
    assert!(oa.create_session);
    assert!(ob.create_session);
    assert_ne!(oa.session, ob.session);
    assert_eq!(core.reply_target(oa.session), a);
    assert_eq!(core.reply_target(ob.session), b);
}

#[test]
fn same_port_different_ip_is_a_distinct_client() {
    let mut core = ProxyCore::new();
    let a = addr(0x0a000001, 40001);
    let b = addr(0x0a000009, 40001);
    let oa = core.handle_packet(a, 1);
    let ob = core.handle_packet(b, 2);
    assert!(ob.create_session);
    assert_ne!(oa.session, ob.session);
}

#[test]
fn repeated_packets_reuse_the_session() {
    let mut core = ProxyCore::new();
    let a = addr(0xc0a80101, 50000);
    let first = core.handle_packet(a, 0);
    assert!(first.create_session);
    for t in 1..5u64 {
        let again = core.handle_packet(a, t);
        assert!(!again.create_session);
        assert_eq!(again.session, first.session);
    }
    assert_eq!(core.sessions.len(), 1);
}

#[test]
fn racing_first_packets_create_one_session() {
    // Two first packets from the same new address at the same instant:
    // the table's lock serializes them; whichever runs second must not
    // create a second session or listener.
    let mut core = ProxyCore::new();
    let a = addr(0xc0a80101, 50000);
    let o1 = core.handle_packet(a, 7);
    let o2 = core.handle_packet(a, 7);
    assert!(o1.create_session);
    assert!(!o2.create_session);
    assert_eq!(o1.session, o2.session);
    assert_eq!(core.sessions.len(), 1);
}

#[test]
fn first_packet_spawns_once_and_warmup_packet_does_not_respawn() {
    let mut core = ProxyCore::new();
    let a = addr(1, 1000);
    let b = addr(2, 1001);
    let o1 = core.handle_packet(a, 0);
    assert!(o1.spawn);
    // A second packet arriving while the first spawn is still warming up:
    // the handle was recorded immediately, so no duplicate spawn.
    let o2 = core.handle_packet(b, 0);
    assert!(!o2.spawn);
    let o3 = core.handle_packet(a, 3);
    assert!(!o3.spawn);
}

#[test]
fn idle_timeout_scenario_stops_between_200_and_230() {
    // timeout = 200s, check interval = 30s, last packet at t = 0: the stop
    // must come from the check at t = 210 — after t = 200, by t = 230.
    assert_eq!(TIMEOUT_SECS, 200);
    assert_eq!(CHECK_INTERVAL_SECS, 30);
    let mut core = ProxyCore::new();
    core.handle_packet(addr(9, 9), 0);
    let mut stop_time = None;
    let mut t = CHECK_INTERVAL_SECS;
    while t <= 240 {
        if core.watchdog_check(t, TIMEOUT_SECS) {
            stop_time = Some(t);
            break;
        }
        t += CHECK_INTERVAL_SECS;
    }
    let stop_time = stop_time.expect("watchdog never stopped the backend");
    assert!(stop_time > 200);
    assert!(stop_time <= 230);
    assert_eq!(stop_time, 210);
}

#[test]
fn check_at_exactly_timeout_does_not_stop() {
    let mut core = ProxyCore::new();
    core.handle_packet(addr(9, 9), 0);
    // Exactly 200s of silence is not yet more than the timeout.
    assert!(!core.watchdog_check(200, TIMEOUT_SECS));
    assert!(core.watchdog_check(201, TIMEOUT_SECS));
}

#[test]
fn one_stop_per_idle_period_and_one_fresh_start_after() {
    let mut core = ProxyCore::new();
    core.handle_packet(addr(3, 3), 0);
    assert!(core.watchdog_check(210, TIMEOUT_SECS));
    // Further checks in the same idle period stop nothing: the clock is
    // cleared, the watchdog is inert until the next packet.
    assert!(!core.watchdog_check(240, TIMEOUT_SECS));
    assert!(!core.watchdog_check(1000, TIMEOUT_SECS));
    // The next packet triggers exactly one fresh start.
    let o = core.handle_packet(addr(3, 3), 1010);
    assert!(o.spawn);
    assert!(!o.create_session, "session survives the idle stop");
    let o2 = core.handle_packet(addr(3, 3), 1011);
    assert!(!o2.spawn);
}

#[test]
fn watchdog_is_inert_before_any_packet() {
    let mut core = ProxyCore::new();
    assert!(!core.watchdog_check(10_000, TIMEOUT_SECS));
    assert!(!core.watchdog_check(1_000_000, TIMEOUT_SECS));
}
