//! Tests of the normalizer: field population, derived sizes, endpoint
//! strings, the content hash and its determinism.

use sensor_suricata_service_rust::processor::{
    convert_suricata_alert_to_sensor_event, derive_eth_len, derive_eth_type, derive_pkt_gen,
    derive_tcp_len, derive_udp_len, generate_hash_sha256, ingest_alert, serialize_for_hash,
};
use sensor_suricata_service_rust::queue::EventBatchQueue;
use sensor_suricata_service_rust::types::{Alert, Metadata, SuricataAlert};
use sha2::Digest;

fn empty_metadata() -> Metadata {
    Metadata {
        sensor_id: String::new(),
        sensor_version: String::new(),
        sent_at: 0,
        hash_sha256: String::new(),
        read_at: 0,
        received_at: 0,
    }
}

fn s1_alert() -> SuricataAlert {
    SuricataAlert {
        metadata: empty_metadata(),
        timestamp: "2025-12-15T07:46:41.123456+0000".to_string(),
        flow_id: None,
        pcap_cnt: None,
        event_type: Some("alert".to_string()),
        src_ip: Some("1.2.3.4".to_string()),
        src_port: None,
        dest_ip: Some("5.6.7.8".to_string()),
        dest_port: None,
        proto: Some("TCP".to_string()),
        ip_v: None,
        pkt_src: None,
        in_iface: Some("eth0".to_string()),
        icmp_type: None,
        icmp_code: None,
        payload: None,
        pkt_len: None,
        ether: None,
        tx_id: None,
        alert: Some(Alert {
            action: "allowed".to_string(),
            gid: 1,
            signature_id: 2100498,
            rev: 9,
            signature: "GPL ATTACK_RESPONSE id check returned root".to_string(),
            category: "Potentially Bad Traffic".to_string(),
            severity: 2,
            metadata: None,
        }),
        http: None,
        files: None,
        app_proto: None,
        direction: None,
        flow: None,
    }
}

#[test]
fn s1_basic_fields() {
    let mut alert = s1_alert();
    alert.metadata.sensor_id = "sensor1".to_string();
    let (event, metric) = convert_suricata_alert_to_sensor_event(&alert).expect("has alert");
    assert_eq!(event.snort_rule, "1:2100498:9");
    assert_eq!(event.sensor_id, "sensor1");
    assert_eq!(event.snort_rule_gid, 1);
    assert_eq!(event.snort_rule_sid, 2100498);
    assert_eq!(event.snort_rule_rev, 9);
    assert_eq!(event.snort_action.as_deref(), Some("allowed"));
    assert_eq!(
        event.snort_classification.as_deref(),
        Some("Potentially Bad Traffic")
    );
    assert_eq!(
        event.snort_message,
        "GPL ATTACK_RESPONSE id check returned root"
    );
    assert_eq!(event.snort_priority, 2);
    assert_eq!(event.snort_interface, "eth0");
    assert_eq!(event.snort_protocol, "TCP");
    assert_eq!(event.event_seconds, 1765784801);
    assert_eq!(event.snort_seconds, 1765784801);
    assert_eq!(event.event_metrics_count, 1);
    assert!(event.metrics.is_empty());
    // The single metric row the caller attaches.
    assert_eq!(metric.snort_timestamp, "2025-12-15T07:46:41.123456+0000");
    assert_eq!(metric.snort_src_address.as_deref(), Some("1.2.3.4"));
    assert_eq!(metric.snort_dst_address.as_deref(), Some("5.6.7.8"));
    // No ports in S1, so no endpoint strings.
    assert_eq!(metric.snort_src_ap, None);
    assert_eq!(metric.snort_dst_ap, None);
    // No packet length: eth_len defaults from zero, TCP length absent.
    assert_eq!(metric.snort_eth_len, Some(18));
    assert_eq!(metric.snort_tcp_len, None);
    assert_eq!(metric.snort_udp_length, None);
    assert_eq!(metric.snort_eth_type.as_deref(), Some("0x800"));
}

#[test]
fn s1_hash_is_64_lowercase_hex() {
    let alert = s1_alert();
    let (event, _) = convert_suricata_alert_to_sensor_event(&alert).expect("has alert");
    assert_eq!(event.event_hash_sha256.len(), 64);
    assert!(event
        .event_hash_sha256
        .chars()
        .all(|c| c.is_ascii_digit() || ('a'..='f').contains(&c)));
}

#[test]
fn hash_matches_direct_sha256_of_serialization() {
    let alert = s1_alert();
    let (event, _) = convert_suricata_alert_to_sensor_event(&alert).expect("has alert");
    let serialized = serialize_for_hash(&event);
    // The hash was taken before the hash field was filled in; the
    // serialization excludes that field, so re-serializing agrees.
    let expected = hex::encode(sha2::Sha256::digest(serialized.as_bytes()));
    assert_eq!(event.event_hash_sha256, expected);
    assert_eq!(generate_hash_sha256(&event), expected);
}

#[test]
fn normalizing_twice_gives_identical_hash_and_fields() {
    let alert = s1_alert();
    let (e1, m1) = convert_suricata_alert_to_sensor_event(&alert).expect("has alert");
    let (e2, m2) = convert_suricata_alert_to_sensor_event(&alert.clone()).expect("has alert");
    assert_eq!(e1.event_hash_sha256, e2.event_hash_sha256);
    assert_eq!(e1.snort_rule, e2.snort_rule);
    assert_eq!(e1.sensor_id, e2.sensor_id);
    assert_eq!(e1.event_seconds, e2.event_seconds);
    assert_eq!(m1.snort_timestamp, m2.snort_timestamp);
    assert_eq!(m1.snort_eth_len, m2.snort_eth_len);
}

#[test]
fn different_rule_gives_different_hash() {
    let a1 = s1_alert();
    let mut a2 = s1_alert();
    if let Some(al) = a2.alert.as_mut() {
        al.signature_id = 999;
    }
    let (e1, _) = convert_suricata_alert_to_sensor_event(&a1).expect("has alert");
    let (e2, _) = convert_suricata_alert_to_sensor_event(&a2).expect("has alert");
    assert_ne!(e1.event_hash_sha256, e2.event_hash_sha256);
}

#[test]
fn s4_alert_missing_yields_nothing() {
    let mut alert = s1_alert();
    alert.alert = None;
    assert!(convert_suricata_alert_to_sensor_event(&alert).is_none());
    let mut queue = EventBatchQueue::new(0);
    let added = ingest_alert(&mut queue, alert, "sensor1");
    assert!(!added);
    assert_eq!(queue.get_queue_size(), 0);
}

#[test]
fn s5_tcp_udp_derivation() {
    let mut alert = s1_alert();
    alert.pkt_len = Some(100);
    alert.proto = Some("TCP".to_string());
    let (_, metric) = convert_suricata_alert_to_sensor_event(&alert).expect("has alert");
    assert_eq!(metric.snort_tcp_len, Some(66));
    assert_eq!(metric.snort_udp_length, None);
    alert.proto = Some("UDP".to_string());
    let (_, metric) = convert_suricata_alert_to_sensor_event(&alert).expect("has alert");
    assert_eq!(metric.snort_tcp_len, None);
    assert_eq!(metric.snort_udp_length, Some(80));
}

#[test]
fn tcp_udp_length_boundaries() {
    assert_eq!(derive_tcp_len("TCP", 35), Some(1));
    assert_eq!(derive_tcp_len("TCP", 34), None);
    assert_eq!(derive_tcp_len("TCP", 0), None);
    assert_eq!(derive_tcp_len("UDP", 100), None);
    assert_eq!(derive_tcp_len("", 100), None);
    assert_eq!(derive_udp_len("UDP", 21), Some(1));
    assert_eq!(derive_udp_len("UDP", 20), None);
    assert_eq!(derive_udp_len("TCP", 100), None);
}

#[test]
fn eth_type_by_ip_version() {
    assert_eq!(derive_eth_type(4), "0x800");
    assert_eq!(derive_eth_type(6), "0x86dd");
    assert_eq!(derive_eth_type(0), "0x800");
    assert_eq!(derive_eth_type(-1), "0x800");
    let mut alert = s1_alert();
    alert.ip_v = Some(6);
    let (_, metric) = convert_suricata_alert_to_sensor_event(&alert).expect("has alert");
    assert_eq!(metric.snort_eth_type.as_deref(), Some("0x86dd"));
}

#[test]
fn eth_len_and_pkt_gen() {
    assert_eq!(derive_eth_len(100), 118);
    assert_eq!(derive_eth_len(0), 18);
    assert_eq!(derive_pkt_gen("wire/pcap"), "wire/pcap");
    assert_eq!(derive_pkt_gen(""), "");
}

#[test]
fn endpoint_present_only_with_both_parts() {
    let mut alert = s1_alert();
    alert.src_port = Some(4242);
    alert.dest_port = Some(80);
    let (_, metric) = convert_suricata_alert_to_sensor_event(&alert).expect("has alert");
    assert_eq!(metric.snort_src_ap.as_deref(), Some("1.2.3.4:4242"));
    assert_eq!(metric.snort_dst_ap.as_deref(), Some("5.6.7.8:80"));
    // Port without address: no endpoint either.
    alert.src_ip = None;
    let (_, metric) = convert_suricata_alert_to_sensor_event(&alert).expect("has alert");
    assert_eq!(metric.snort_src_ap, None);
    assert_eq!(metric.snort_src_address, None);
}

#[test]
fn negative_rule_numbers_render_with_sign() {
    let mut alert = s1_alert();
    if let Some(al) = alert.alert.as_mut() {
        al.gid = -5;
        al.signature_id = 0;
        al.rev = -1;
    }
    let (event, _) = convert_suricata_alert_to_sensor_event(&alert).expect("has alert");
    assert_eq!(event.snort_rule, "-5:0:-1");
}
