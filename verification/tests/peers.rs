use bitcoin_dashboard::peers::{collect_peers, obfuscate_addr, PeerInfo, PeerTracker};

fn peer(id: i64, addr: &str, sent: u64, recv: u64) -> PeerInfo {
    PeerInfo {
        id,
        addr: addr.to_string(),
        inbound: id % 2 == 0,
        subver: "/Satoshi:24.0.1/".to_string(),
        version: 70016,
        bytessent: sent,
        bytesrecv: recv,
        conntime: 1_700_000_000,
    }
}

#[test]
fn ipv4_keeps_last_octet_and_port() {
    assert_eq!(obfuscate_addr("192.168.1.5:8333"), "*.*.*5:8333");
    assert_eq!(obfuscate_addr("10.0.0.254:18444"), "*.*.*254:18444");
}

#[test]
fn hostname_with_dots_keeps_last_label() {
    assert_eq!(obfuscate_addr("node.example.com:80"), "*.*.*com:80");
}

#[test]
fn ipv6_is_masked_entirely() {
    assert_eq!(obfuscate_addr("[2001:db8::1]:8333"), "[ipv6]:8333");
    assert_eq!(obfuscate_addr("[::1]:18444"), "[ipv6]:18444");
}

#[test]
fn ipv4_without_port_keeps_only_last_octet() {
    assert_eq!(obfuscate_addr("10.20.30.40"), "*.*.*40");
    assert_eq!(obfuscate_addr("10.0.0.1"), "*.*.*1");
    assert!(!obfuscate_addr("10.20.30.40").contains("10.20.30"));
}

#[test]
fn other_address_without_port_is_shown_as_ipv6() {
    assert_eq!(obfuscate_addr("localhost"), "[ipv6]:localhost");
    assert_eq!(obfuscate_addr(""), "[ipv6]:");
}

#[test]
fn odd_addresses() {
    assert_eq!(obfuscate_addr(":8333"), "[ipv6]:8333");
    assert_eq!(obfuscate_addr("1.2.3.:9"), "*.*.*:9");
    assert_eq!(obfuscate_addr("1.2.3.4:"), "*.*.*4:");
}

#[test]
fn first_sample_has_no_deltas() {
    let mut t = PeerTracker::new();
    let peers = vec![peer(1, "1.2.3.4:8333", 100, 200), peer(2, "[::1]:8333", 5, 6)];
    assert!(t.counters_fit(&peers));
    let rows = collect_peers(&mut t, 1000, &peers);
    assert_eq!(rows.len(), 2);
    for r in &rows {
        assert_eq!(r.ts, 1000);
        assert_eq!(r.bytes_sent_delta, None);
        assert_eq!(r.bytes_recv_delta, None);
    }
    assert_eq!(rows[0].peer_id, 1);
    assert_eq!(rows[0].addr_hash, "*.*.*4:8333");
    assert_eq!(rows[0].subver, "/Satoshi:24.0.1/");
    assert_eq!(rows[0].version, 70016);
    assert!(!rows[0].inbound);
    assert!(rows[1].inbound);
    assert_eq!(rows[1].addr_hash, "[ipv6]:8333");
    assert_eq!(rows[1].bytes_sent, 5);
    assert_eq!(rows[1].bytes_recv, 6);
}

#[test]
fn second_sample_reports_growth() {
    let mut t = PeerTracker::new();
    collect_peers(&mut t, 1000, &vec![peer(1, "1.2.3.4:8333", 100, 200)]);
    let rows = collect_peers(&mut t, 1010, &vec![peer(1, "1.2.3.4:8333", 160, 1200)]);
    assert_eq!(rows[0].bytes_sent_delta, Some(60));
    assert_eq!(rows[0].bytes_recv_delta, Some(1000));
}

#[test]
fn shrinking_counter_gives_zero_delta() {
    let mut t = PeerTracker::new();
    collect_peers(&mut t, 1000, &vec![peer(7, "1.2.3.4:8333", 500, 500)]);
    let rows = collect_peers(&mut t, 1010, &vec![peer(7, "1.2.3.4:8333", 100, 500)]);
    assert_eq!(rows[0].bytes_sent_delta, Some(0));
    assert_eq!(rows[0].bytes_recv_delta, Some(0));
}

#[test]
fn zero_previous_counter_gives_full_delta() {
    let mut t = PeerTracker::new();
    collect_peers(&mut t, 1000, &vec![peer(3, "1.2.3.4:1", 0, 40)]);
    let rows = collect_peers(&mut t, 1010, &vec![peer(3, "1.2.3.4:1", 30, 90)]);
    assert_eq!(rows[0].bytes_sent_delta, Some(30));
    assert_eq!(rows[0].bytes_recv_delta, Some(50));
}

#[test]
fn peer_remembered_with_zero_counters_has_deltas() {
    let mut t = PeerTracker::new();
    collect_peers(&mut t, 1000, &vec![peer(5, "1.2.3.4:1", 0, 0)]);
    let rows = collect_peers(&mut t, 1010, &vec![peer(5, "1.2.3.4:1", 500, 700)]);
    assert_eq!(rows[0].bytes_sent_delta, Some(500));
    assert_eq!(rows[0].bytes_recv_delta, Some(700));
}

#[test]
fn reconnected_peer_with_new_id_has_no_delta() {
    let mut t = PeerTracker::new();
    collect_peers(&mut t, 1000, &vec![peer(1, "1.2.3.4:8333", 100, 200)]);
    let rows = collect_peers(&mut t, 1010, &vec![peer(9, "1.2.3.4:8333", 150, 250)]);
    assert_eq!(rows[0].bytes_sent_delta, None);
    assert_eq!(rows[0].bytes_recv_delta, None);
}

#[test]
fn departed_peers_are_forgotten() {
    let mut t = PeerTracker::new();
    collect_peers(&mut t, 1000, &vec![peer(1, "a:1", 100, 100), peer(2, "b:2", 100, 100)]);
    collect_peers(&mut t, 1010, &vec![peer(2, "b:2", 150, 150)]);
    let rows = collect_peers(&mut t, 1020, &vec![peer(1, "a:1", 300, 300), peer(2, "b:2", 170, 190)]);
    assert_eq!(rows[0].bytes_sent_delta, None);
    assert_eq!(rows[1].bytes_sent_delta, Some(20));
    assert_eq!(rows[1].bytes_recv_delta, Some(40));
}

#[test]
fn empty_sample_forgets_everyone() {
    let mut t = PeerTracker::new();
    collect_peers(&mut t, 1000, &vec![peer(1, "a:1", 100, 100)]);
    let rows = collect_peers(&mut t, 1010, &vec![]);
    assert!(rows.is_empty());
    let rows = collect_peers(&mut t, 1020, &vec![peer(1, "a:1", 200, 200)]);
    assert_eq!(rows[0].bytes_sent_delta, None);
}

#[test]
fn duplicate_ids_remember_last_entry() {
    let mut t = PeerTracker::new();
    collect_peers(&mut t, 1000, &vec![peer(4, "a:1", 10, 10), peer(4, "a:1", 50, 70)]);
    let rows = collect_peers(&mut t, 1010, &vec![peer(4, "a:1", 60, 100)]);
    assert_eq!(rows[0].bytes_sent_delta, Some(10));
    assert_eq!(rows[0].bytes_recv_delta, Some(30));
}

#[test]
fn counters_fit_detects_overflow() {
    let mut t = PeerTracker::new();
    collect_peers(&mut t, 1000, &vec![peer(1, "a:1", u64::MAX, 1)]);
    let next = vec![peer(1, "a:1", i64::MAX as u64, 2)];
    assert!(!t.counters_fit(&next));
    let ok = vec![peer(1, "a:1", u64::MAX, 2)];
    assert!(t.counters_fit(&ok));
    let rows = collect_peers(&mut t, 1010, &ok);
    assert_eq!(rows[0].bytes_sent_delta, Some(0));
    assert_eq!(rows[0].bytes_recv_delta, Some(1));
}

#[test]
fn new_peers_always_fit() {
    let t = PeerTracker::new();
    assert!(t.counters_fit(&vec![peer(1, "a:1", u64::MAX, u64::MAX)]));
}
