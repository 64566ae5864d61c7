//! The data model: the parsed Suricata alert on the ingress side, and the
//! canonical `SensorEvent` with its `Metric` rows on the egress side.
//!
//! The alert-side structs are plain data; the normalizer's specification
//! reads their fields directly. The event-side structs carry ghost views
//! (`SensorEventView`, `MetricView`) over which every contract of the
//! normalizer and of the coalescing queue is stated.

use vstd::prelude::*;

verus! {

/// The agent-side metadata embedded in an alert record: sensor identity and
/// the relay timing fields.
#[derive(Clone)]
pub struct Metadata {
    pub sensor_id: String,
    pub sensor_version: String,
    pub sent_at: i64,
    pub hash_sha256: String,
    pub read_at: i64,
    pub received_at: i64,
}

/// The `alert` sub-record of a Suricata EVE record: the rule identity of the
/// detection. A record without one carries no security-relevant content and
/// is dropped by the normalizer.
#[derive(Clone)]
pub struct Alert {
    pub action: String,
    pub gid: i64,
    pub signature_id: i64,
    pub rev: i64,
    pub signature: String,
    pub category: String,
    pub severity: i64,
    pub metadata: Option<SuricataMetadata>,
}

/// Rule metadata lists attached by Suricata to the `alert` sub-record.
#[derive(Clone)]
pub struct SuricataMetadata {
    pub affected_product: Option<Vec<String>>,
    pub attack_target: Option<Vec<String>>,
    pub created_at: Option<Vec<String>>,
    pub deployment: Option<Vec<String>>,
    pub former_category: Option<Vec<String>>,
    pub signature_severity: Option<Vec<String>>,
    pub updated_at: Option<Vec<String>>,
}

/// Ethernet addresses of the triggering packet.
#[derive(Clone)]
pub struct Ether {
    pub src_mac: Option<String>,
    pub dest_mac: Option<String>,
}

/// The HTTP sub-record of an EVE record. Not read by the normalizer.
#[derive(Clone)]
pub struct HTTP {
    pub hostname: Option<String>,
    pub http_port: Option<i64>,
    pub url: Option<String>,
    pub http_content_type: Option<String>,
    pub http_method: Option<String>,
    pub protocol: Option<String>,
    pub status: Option<i64>,
    pub length: Option<i64>,
}

/// A file-extraction entry of an EVE record. Not read by the normalizer.
#[derive(Clone)]
pub struct FileInfo {
    pub filename: Option<String>,
    pub gaps: Option<bool>,
    pub state: Option<String>,
    pub stored: Option<bool>,
    pub size: Option<i64>,
    pub tx_id: Option<i64>,
}

/// Per-direction flow counters of the triggering flow.
#[derive(Clone)]
pub struct Flow {
    pub pkts_toserver: Option<i64>,
    pub pkts_toclient: Option<i64>,
    pub bytes_toserver: Option<i64>,
    pub bytes_toclient: Option<i64>,
    pub start: Option<String>,
    pub src_ip: Option<String>,
    pub dest_ip: Option<String>,
    pub src_port: Option<i64>,
    pub dest_port: Option<i64>,
}

/// One parsed Suricata EVE alert record, as handed to the normalizer.
#[derive(Clone)]
pub struct SuricataAlert {
    pub metadata: Metadata,
    pub timestamp: String,
    pub flow_id: Option<i64>,
    pub pcap_cnt: Option<i64>,
    pub event_type: Option<String>,
    pub src_ip: Option<String>,
    pub src_port: Option<i64>,
    pub dest_ip: Option<String>,
    pub dest_port: Option<i64>,
    pub proto: Option<String>,
    pub ip_v: Option<i64>,
    pub pkt_src: Option<String>,
    pub in_iface: Option<String>,
    pub icmp_type: Option<i64>,
    pub icmp_code: Option<i64>,
    pub payload: Option<String>,
    pub pkt_len: Option<i64>,
    pub ether: Option<Ether>,
    pub tx_id: Option<i64>,
    pub alert: Option<Alert>,
    pub http: Option<HTTP>,
    pub files: Option<Vec<FileInfo>>,
    pub app_proto: Option<String>,
    pub direction: Option<String>,
    pub flow: Option<Flow>,
}

/// One packet/flow observation attached to a `SensorEvent`.
#[derive(Clone)]
pub struct Metric {
    pub snort_timestamp: String,
    pub snort_base64_data: Option<String>,
    pub snort_client_bytes: Option<i64>,
    pub snort_client_pkts: Option<i64>,
    pub snort_dst_address: Option<String>,
    pub snort_dst_port: Option<i64>,
    pub snort_dst_ap: Option<String>,
    pub snort_eth_dst: Option<String>,
    pub snort_eth_len: Option<i64>,
    pub snort_eth_src: Option<String>,
    pub snort_eth_type: Option<String>,
    pub snort_flowstart_time: Option<i64>,
    pub snort_icmp_code: Option<i64>,
    pub snort_icmp_type: Option<i64>,
    pub snort_pkt_gen: Option<String>,
    pub snort_pkt_length: Option<i64>,
    pub snort_pkt_number: Option<i64>,
    pub snort_server_bytes: Option<i64>,
    pub snort_server_pkts: Option<i64>,
    pub snort_src_address: Option<String>,
    pub snort_src_port: Option<i64>,
    pub snort_src_ap: Option<String>,
    pub snort_tcp_flags: Option<String>,
    pub snort_tcp_len: Option<i64>,
    pub snort_time_to_live: Option<i64>,
    pub snort_udp_length: Option<i64>,
    pub snort_vlan: Option<i64>,
}

/// The canonical outbound record: per-rule identity and timing, the
/// deduplication hash, and the accumulated metric rows.
#[derive(Clone)]
pub struct SensorEvent {
    pub metrics: Vec<Metric>,
    pub event_hash_sha256: String,
    pub event_metrics_count: i64,
    pub event_seconds: i64,
    pub sensor_id: String,
    pub sensor_version: String,
    pub snort_action: Option<String>,
    pub snort_classification: Option<String>,
    pub snort_direction: Option<String>,
    pub snort_interface: String,
    pub snort_message: String,
    pub snort_priority: i64,
    pub snort_protocol: String,
    pub snort_rule_gid: i64,
    pub snort_rule_rev: i64,
    pub snort_rule_sid: i64,
    pub snort_rule: String,
    pub snort_seconds: i64,
    pub snort_service: Option<String>,
    pub snort_type_of_service: Option<i64>,
    pub event_read_at: i64,
    pub event_sent_at: i64,
    pub event_received_at: i64,
}

/// The view of an optional string: the character sequence, if present.
pub open spec fn view_opt_str(o: Option<String>) -> Option<Seq<char>> {
    match o {
        Option::Some(s) => Option::Some(s@),
        Option::None => Option::None,
    }
}

/// The characters of an optional string, or the empty sequence.
pub open spec fn str_or_empty(o: Option<String>) -> Seq<char> {
    match o {
        Option::Some(s) => s@,
        Option::None => Seq::empty(),
    }
}

/// The mathematical model of a `Metric`: every string replaced by its
/// character sequence.
pub ghost struct MetricView {
    pub snort_timestamp: Seq<char>,
    pub snort_base64_data: Option<Seq<char>>,
    pub snort_client_bytes: Option<i64>,
    pub snort_client_pkts: Option<i64>,
    pub snort_dst_address: Option<Seq<char>>,
    pub snort_dst_port: Option<i64>,
    pub snort_dst_ap: Option<Seq<char>>,
    pub snort_eth_dst: Option<Seq<char>>,
    pub snort_eth_len: Option<i64>,
    pub snort_eth_src: Option<Seq<char>>,
    pub snort_eth_type: Option<Seq<char>>,
    pub snort_flowstart_time: Option<i64>,
    pub snort_icmp_code: Option<i64>,
    pub snort_icmp_type: Option<i64>,
    pub snort_pkt_gen: Option<Seq<char>>,
    pub snort_pkt_length: Option<i64>,
    pub snort_pkt_number: Option<i64>,
    pub snort_server_bytes: Option<i64>,
    pub snort_server_pkts: Option<i64>,
    pub snort_src_address: Option<Seq<char>>,
    pub snort_src_port: Option<i64>,
    pub snort_src_ap: Option<Seq<char>>,
    pub snort_tcp_flags: Option<Seq<char>>,
    pub snort_tcp_len: Option<i64>,
    pub snort_time_to_live: Option<i64>,
    pub snort_udp_length: Option<i64>,
    pub snort_vlan: Option<i64>,
}

impl View for Metric {
    type V = MetricView;

    open spec fn view(&self) -> MetricView {
        MetricView {
            snort_timestamp: self.snort_timestamp@,
            snort_base64_data: view_opt_str(self.snort_base64_data),
            snort_client_bytes: self.snort_client_bytes,
            snort_client_pkts: self.snort_client_pkts,
            snort_dst_address: view_opt_str(self.snort_dst_address),
            snort_dst_port: self.snort_dst_port,
            snort_dst_ap: view_opt_str(self.snort_dst_ap),
            snort_eth_dst: view_opt_str(self.snort_eth_dst),
            snort_eth_len: self.snort_eth_len,
            snort_eth_src: view_opt_str(self.snort_eth_src),
            snort_eth_type: view_opt_str(self.snort_eth_type),
            snort_flowstart_time: self.snort_flowstart_time,
            snort_icmp_code: self.snort_icmp_code,
            snort_icmp_type: self.snort_icmp_type,
            snort_pkt_gen: view_opt_str(self.snort_pkt_gen),
            snort_pkt_length: self.snort_pkt_length,
            snort_pkt_number: self.snort_pkt_number,
            snort_server_bytes: self.snort_server_bytes,
            snort_server_pkts: self.snort_server_pkts,
            snort_src_address: view_opt_str(self.snort_src_address),
            snort_src_port: self.snort_src_port,
            snort_src_ap: view_opt_str(self.snort_src_ap),
            snort_tcp_flags: view_opt_str(self.snort_tcp_flags),
            snort_tcp_len: self.snort_tcp_len,
            snort_time_to_live: self.snort_time_to_live,
            snort_udp_length: self.snort_udp_length,
            snort_vlan: self.snort_vlan,
        }
    }
}

/// The mathematical model of a `SensorEvent`: strings as character
/// sequences, the metric rows as a sequence of `MetricView`s.
pub ghost struct SensorEventView {
    pub metrics: Seq<MetricView>,
    pub event_hash_sha256: Seq<char>,
    pub event_metrics_count: i64,
    pub event_seconds: i64,
    pub sensor_id: Seq<char>,
    pub sensor_version: Seq<char>,
    pub snort_action: Option<Seq<char>>,
    pub snort_classification: Option<Seq<char>>,
    pub snort_direction: Option<Seq<char>>,
    pub snort_interface: Seq<char>,
    pub snort_message: Seq<char>,
    pub snort_priority: i64,
    pub snort_protocol: Seq<char>,
    pub snort_rule_gid: i64,
    pub snort_rule_rev: i64,
    pub snort_rule_sid: i64,
    pub snort_rule: Seq<char>,
    pub snort_seconds: i64,
    pub snort_service: Option<Seq<char>>,
    pub snort_type_of_service: Option<i64>,
    pub event_read_at: i64,
    pub event_sent_at: i64,
    pub event_received_at: i64,
}

impl View for SensorEvent {
    type V = SensorEventView;

    open spec fn view(&self) -> SensorEventView {
        SensorEventView {
            metrics: self.metrics@.map_values(|m: Metric| m@),
            event_hash_sha256: self.event_hash_sha256@,
            event_metrics_count: self.event_metrics_count,
            event_seconds: self.event_seconds,
            sensor_id: self.sensor_id@,
            sensor_version: self.sensor_version@,
            snort_action: view_opt_str(self.snort_action),
            snort_classification: view_opt_str(self.snort_classification),
            snort_direction: view_opt_str(self.snort_direction),
            snort_interface: self.snort_interface@,
            snort_message: self.snort_message@,
            snort_priority: self.snort_priority,
            snort_protocol: self.snort_protocol@,
            snort_rule_gid: self.snort_rule_gid,
            snort_rule_rev: self.snort_rule_rev,
            snort_rule_sid: self.snort_rule_sid,
            snort_rule: self.snort_rule@,
            snort_seconds: self.snort_seconds,
            snort_service: view_opt_str(self.snort_service),
            snort_type_of_service: self.snort_type_of_service,
            event_read_at: self.event_read_at,
            event_sent_at: self.event_sent_at,
            event_received_at: self.event_received_at,
        }
    }
}

} // verus!
