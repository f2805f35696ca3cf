use tcp_info_server::reader::{flag_or_unset, reply_status, snapshot_from_query};
use tcp_info_server::snapshot::{RawTcpInfo, TcpConnectionInfo};

fn sample_raw() -> RawTcpInfo {
    RawTcpInfo {
        state: 1,
        ca_state: 4,
        retransmits: 2,
        probes: 3,
        backoff: 4,
        rto: 204000,
        ato: 40000,
        snd_mss: 1448,
        rcv_mss: 536,
        unacked: 5,
        sacked: 6,
        lost: 7,
        retrans: 8,
        fackets: 9,
        last_data_sent: 12,
        last_ack_sent: 0,
        last_data_recv: 3500000,
        last_ack_recv: 999,
        pmtu: 65535,
        rcv_ssthresh: 64076,
        rtt: 25,
        rttvar: 1000,
        snd_ssthresh: 2147483647,
        snd_cwnd: 10,
        advmss: 65483,
        reordering: 3,
        rcv_rtt: 1000001,
        rcv_space: 65483,
        total_retrans: 11,
    }
}

fn check_sample(info: &TcpConnectionInfo) {
    assert_eq!(info.state, "ESTABLISHED");
    assert_eq!(info.ca_state, "LOSS");
    assert_eq!(info.retransmits, 2);
    assert_eq!(info.probes, 3);
    assert_eq!(info.backoff, 4);
    assert_eq!(info.rto, "204ms");
    assert_eq!(info.ato, "40ms");
    assert_eq!(info.snd_mss, 1448);
    assert_eq!(info.rcv_mss, 536);
    assert_eq!(info.unacked, 5);
    assert_eq!(info.sacked, 6);
    assert_eq!(info.lost, 7);
    assert_eq!(info.retrans, 8);
    assert_eq!(info.fackets, 9);
    assert_eq!(info.last_data_sent, "12µs");
    assert_eq!(info.last_ack_sent, "0");
    assert_eq!(info.last_data_recv, "3s");
    assert_eq!(info.last_ack_recv, "999µs");
    assert_eq!(info.pmtu, 65535);
    assert_eq!(info.rcv_ssthresh, 64076);
    assert_eq!(info.rtt, "25µs");
    assert_eq!(info.rttvar, "1ms");
    assert_eq!(info.snd_ssthresh, 2147483647);
    assert_eq!(info.snd_cwnd, 10);
    assert_eq!(info.advmss, 65483);
    assert_eq!(info.reordering, 3);
    assert_eq!(info.rcv_rtt, "1s");
    assert_eq!(info.rcv_space, 65483);
    assert_eq!(info.total_retrans, 11);
}

#[test]
fn from_raw_decodes_every_field() {
    let info = TcpConnectionInfo::from_raw(
        &sample_raw(),
        "localhost:8080".to_string(),
        Some("127.0.0.1:51234".to_string()),
        true,
        false,
    );
    check_sample(&info);
    assert_eq!(info.local_addr, "localhost:8080");
    assert_eq!(info.peer_addr.as_deref(), Some("127.0.0.1:51234"));
    assert!(info.tcp_nodelay);
    assert!(!info.keepalive);
}

#[test]
fn successful_query_gives_snapshot() {
    let r = snapshot_from_query(
        0,
        &sample_raw(),
        "example.org".to_string(),
        None,
        Some(true),
        Some(true),
    );
    let info = r.expect("a successful query yields a snapshot");
    check_sample(&info);
    assert_eq!(info.local_addr, "example.org");
    assert_eq!(info.peer_addr, None);
    assert!(info.tcp_nodelay);
    assert!(info.keepalive);
    assert_eq!(reply_status(&Some(info)), 200);
}

#[test]
fn failed_query_gives_no_snapshot_and_server_error() {
    for status in [-1, 1, i32::MIN, i32::MAX] {
        let r = snapshot_from_query(
            status,
            &sample_raw(),
            "example.org".to_string(),
            Some("10.0.0.1:1".to_string()),
            Some(true),
            Some(true),
        );
        assert!(r.is_none());
        assert_eq!(reply_status(&r), 500);
    }
}

#[test]
fn failed_flag_reads_default_to_unset() {
    let info = snapshot_from_query(0, &RawTcpInfo::default(), String::new(), None, None, None)
        .expect("a successful query yields a snapshot");
    assert!(!info.tcp_nodelay);
    assert!(!info.keepalive);
    assert_eq!(info.state, "UNKNOWN");
    assert_eq!(info.ca_state, "OPEN");
    assert_eq!(info.rto, "0");
}

#[test]
fn flag_reads() {
    assert!(flag_or_unset(Some(true)));
    assert!(!flag_or_unset(Some(false)));
    assert!(!flag_or_unset(None));
}
