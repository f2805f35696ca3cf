//! The snapshot of one connection's TCP state, assembled from the kernel's
//! diagnostic record and the request's addressing.
use vstd::prelude::*;

use crate::decode::{
    ca_state_label, ca_state_to_string, human_duration, microseconds_to_human, tcp_state_label,
    tcp_state_to_string,
};

verus! {

/// The kernel's TCP diagnostic record (`tcp_info`), as plain counters: state
/// codes, counters, microsecond durations and sizes.
#[derive(Clone, Copy, Debug, Default)]
pub struct RawTcpInfo {
    pub state: u8,
    pub ca_state: u8,
    pub retransmits: u8,
    pub probes: u8,
    pub backoff: u8,
    pub rto: u32,
    pub ato: u32,
    pub snd_mss: u32,
    pub rcv_mss: u32,
    pub unacked: u32,
    pub sacked: u32,
    pub lost: u32,
    pub retrans: u32,
    pub fackets: u32,
    pub last_data_sent: u32,
    pub last_ack_sent: u32,
    pub last_data_recv: u32,
    pub last_ack_recv: u32,
    pub pmtu: u32,
    pub rcv_ssthresh: u32,
    pub rtt: u32,
    pub rttvar: u32,
    pub snd_ssthresh: u32,
    pub snd_cwnd: u32,
    pub advmss: u32,
    pub reordering: u32,
    pub rcv_rtt: u32,
    pub rcv_space: u32,
    pub total_retrans: u32,
}

/// One point-in-time reading of a connection: decoded states, rendered
/// durations, counters passed through, addressing and two socket flags.
#[derive(Clone, Debug)]
pub struct TcpConnectionInfo {
    pub state: String,
    pub ca_state: String,
    pub retransmits: u8,
    pub probes: u8,
    pub backoff: u8,
    pub rto: String,
    pub ato: String,
    pub snd_mss: u32,
    pub rcv_mss: u32,
    pub unacked: u32,
    pub sacked: u32,
    pub lost: u32,
    pub retrans: u32,
    pub fackets: u32,
    pub last_data_sent: String,
    pub last_ack_sent: String,
    pub last_data_recv: String,
    pub last_ack_recv: String,
    pub pmtu: u32,
    pub rcv_ssthresh: u32,
    pub rtt: String,
    pub rttvar: String,
    pub snd_ssthresh: u32,
    pub snd_cwnd: u32,
    pub advmss: u32,
    pub reordering: u32,
    pub rcv_rtt: String,
    pub rcv_space: u32,
    pub total_retrans: u32,
    pub local_addr: String,
    pub peer_addr: Option<String>,
    pub tcp_nodelay: bool,
    pub keepalive: bool,
}

impl TcpConnectionInfo {
    /// Every field of `raw` stands in `self`: the two states by their labels,
    /// the durations rendered, every other counter unchanged.
    pub open spec fn decodes(&self, raw: &RawTcpInfo) -> bool {
        &&& self.state@ == tcp_state_label(raw.state)
        &&& self.ca_state@ == ca_state_label(raw.ca_state)
        &&& self.retransmits == raw.retransmits
        &&& self.probes == raw.probes
        &&& self.backoff == raw.backoff
        &&& self.rto@ == human_duration(raw.rto as nat)
        &&& self.ato@ == human_duration(raw.ato as nat)
        &&& self.snd_mss == raw.snd_mss
        &&& self.rcv_mss == raw.rcv_mss
        &&& self.unacked == raw.unacked
        &&& self.sacked == raw.sacked
        &&& self.lost == raw.lost
        &&& self.retrans == raw.retrans
        &&& self.fackets == raw.fackets
        &&& self.last_data_sent@ == human_duration(raw.last_data_sent as nat)
        &&& self.last_ack_sent@ == human_duration(raw.last_ack_sent as nat)
        &&& self.last_data_recv@ == human_duration(raw.last_data_recv as nat)
        &&& self.last_ack_recv@ == human_duration(raw.last_ack_recv as nat)
        &&& self.pmtu == raw.pmtu
        &&& self.rcv_ssthresh == raw.rcv_ssthresh
        &&& self.rtt@ == human_duration(raw.rtt as nat)
        &&& self.rttvar@ == human_duration(raw.rttvar as nat)
        &&& self.snd_ssthresh == raw.snd_ssthresh
        &&& self.snd_cwnd == raw.snd_cwnd
        &&& self.advmss == raw.advmss
        &&& self.reordering == raw.reordering
        &&& self.rcv_rtt@ == human_duration(raw.rcv_rtt as nat)
        &&& self.rcv_space == raw.rcv_space
        &&& self.total_retrans == raw.total_retrans
    }

    /// Assembles a snapshot from a record read from the kernel, the request's
    /// addresses and the two socket flags.
    pub fn from_raw(
        raw: &RawTcpInfo,
        local_addr: String,
        peer_addr: Option<String>,
        tcp_nodelay: bool,
        keepalive: bool,
    ) -> (r: TcpConnectionInfo)
        ensures
            r.decodes(raw),
            r.local_addr == local_addr,
            r.peer_addr == peer_addr,
            r.tcp_nodelay == tcp_nodelay,
            r.keepalive == keepalive,
    {
        TcpConnectionInfo {
            state: tcp_state_to_string(raw.state),
            ca_state: ca_state_to_string(raw.ca_state),
            retransmits: raw.retransmits,
            probes: raw.probes,
            backoff: raw.backoff,
            rto: microseconds_to_human(raw.rto),
            ato: microseconds_to_human(raw.ato),
            snd_mss: raw.snd_mss,
            rcv_mss: raw.rcv_mss,
            unacked: raw.unacked,
            sacked: raw.sacked,
            lost: raw.lost,
            retrans: raw.retrans,
            fackets: raw.fackets,
            last_data_sent: microseconds_to_human(raw.last_data_sent),
            last_ack_sent: microseconds_to_human(raw.last_ack_sent),
            last_data_recv: microseconds_to_human(raw.last_data_recv),
            last_ack_recv: microseconds_to_human(raw.last_ack_recv),
            pmtu: raw.pmtu,
            rcv_ssthresh: raw.rcv_ssthresh,
            rtt: microseconds_to_human(raw.rtt),
            rttvar: microseconds_to_human(raw.rttvar),
            snd_ssthresh: raw.snd_ssthresh,
            snd_cwnd: raw.snd_cwnd,
            advmss: raw.advmss,
            reordering: raw.reordering,
            rcv_rtt: microseconds_to_human(raw.rcv_rtt),
            rcv_space: raw.rcv_space,
            total_retrans: raw.total_retrans,
            local_addr,
            peer_addr,
            tcp_nodelay,
            keepalive,
        }
    }
}

} // verus!
