//! Tests of the coalescing queue: merging by hash, immediate and windowed
//! drains, and the per-second counters.

use sensor_suricata_service_rust::processor::{
    convert_suricata_alert_to_sensor_event, ingest_alert,
};
use sensor_suricata_service_rust::queue::EventBatchQueue;
use sensor_suricata_service_rust::types::{Alert, Metadata, SensorEvent, SuricataAlert};

fn alert_with_sid(sid: i64) -> SuricataAlert {
    SuricataAlert {
        metadata: Metadata {
            sensor_id: "sensor1".to_string(),
            sensor_version: "1.0".to_string(),
            sent_at: 0,
            hash_sha256: String::new(),
            read_at: 0,
            received_at: 0,
        },
        timestamp: "2025-12-15T07:46:41.123456+0000".to_string(),
        flow_id: None,
        pcap_cnt: None,
        event_type: Some("alert".to_string()),
        src_ip: Some("1.2.3.4".to_string()),
        src_port: None,
        dest_ip: Some("5.6.7.8".to_string()),
        dest_port: None,
        proto: Some("TCP".to_string()),
        ip_v: None,
        pkt_src: None,
        in_iface: Some("eth0".to_string()),
        icmp_type: None,
        icmp_code: None,
        payload: None,
        pkt_len: None,
        ether: None,
        tx_id: None,
        alert: Some(Alert {
            action: "allowed".to_string(),
            gid: 1,
            signature_id: sid,
            rev: 9,
            signature: "sig".to_string(),
            category: "cat".to_string(),
            severity: 2,
            metadata: None,
        }),
        http: None,
        files: None,
        app_proto: None,
        direction: None,
        flow: None,
    }
}

fn event_with_metric(sid: i64) -> SensorEvent {
    let alert = alert_with_sid(sid);
    let (mut event, metric) = convert_suricata_alert_to_sensor_event(&alert).expect("has alert");
    event.metrics.push(metric);
    event
}

#[test]
fn s3_coalescing_two_inserts_one_record_two_metrics() {
    let mut queue = EventBatchQueue::new(0);
    queue.add_at(event_with_metric(2100498), 100);
    queue.add_at(event_with_metric(2100498), 101);
    assert_eq!(queue.get_queue_size(), 1);
    let batch = queue.process_batch();
    assert_eq!(batch.len(), 1);
    assert_eq!(batch[0].metrics.len(), 2);
    assert_eq!(queue.get_queue_size(), 0);
}

#[test]
fn coalescing_keeps_metric_insertion_order() {
    let mut queue = EventBatchQueue::new(0);
    let mut first = event_with_metric(7);
    first.metrics[0].snort_pkt_length = Some(111);
    let mut second = event_with_metric(7);
    second.metrics[0].snort_pkt_length = Some(222);
    queue.add_at(first, 10);
    queue.add_at(second, 20);
    let batch = queue.process_batch();
    assert_eq!(batch.len(), 1);
    assert_eq!(batch[0].metrics.len(), 2);
    assert_eq!(batch[0].metrics[0].snort_pkt_length, Some(111));
    assert_eq!(batch[0].metrics[1].snort_pkt_length, Some(222));
}

#[test]
fn immediate_drain_empties_queue_and_yields_all() {
    let mut queue = EventBatchQueue::new(0);
    queue.add(event_with_metric(1));
    queue.add(event_with_metric(2));
    queue.add(event_with_metric(3));
    assert_eq!(queue.get_queue_size(), 3);
    let batch = queue.process_batch();
    assert_eq!(batch.len(), 3);
    assert_eq!(queue.get_queue_size(), 0);
    let mut drained: Vec<String> = batch.iter().map(|e| e.event_hash_sha256.clone()).collect();
    let mut expected: Vec<String> = vec![
        event_with_metric(1).event_hash_sha256,
        event_with_metric(2).event_hash_sha256,
        event_with_metric(3).event_hash_sha256,
    ];
    drained.sort();
    expected.sort();
    assert_eq!(drained, expected);
}

#[test]
fn empty_immediate_drain_changes_nothing() {
    let mut queue = EventBatchQueue::new(0);
    let batch = queue.process_batch();
    assert!(batch.is_empty());
    assert_eq!(queue.get_queue_size(), 0);
    queue.update_metrics();
    assert_eq!(queue.get_event_batch_sent_per_second(), 0);
    assert_eq!(queue.get_total_sent_events(), 0);
    assert_eq!(queue.get_total_processed_events(), 0);
}

#[test]
fn windowed_drain_takes_only_ripe_records() {
    let mut queue = EventBatchQueue::new(5);
    queue.add_at(event_with_metric(1), 100);
    // 103 <= 100 + 5: nothing is ripe yet.
    let batch = queue.process_batch_at(103);
    assert!(batch.is_empty());
    assert_eq!(queue.get_queue_size(), 1);
    // 106 > 105: the record is ripe.
    let batch = queue.process_batch_at(106);
    assert_eq!(batch.len(), 1);
    assert_eq!(queue.get_queue_size(), 0);
}

#[test]
fn windowed_drain_boundary_is_strict() {
    let mut queue = EventBatchQueue::new(5);
    queue.add_at(event_with_metric(1), 100);
    // now == updated_at + delta exactly: not ripe.
    let batch = queue.process_batch_at(105);
    assert!(batch.is_empty());
    assert_eq!(queue.get_queue_size(), 1);
}

#[test]
fn merge_refreshes_update_time_in_windowed_mode() {
    let mut queue = EventBatchQueue::new(5);
    queue.add_at(event_with_metric(1), 100);
    // A duplicate at 104 pushes the window out.
    queue.add_at(event_with_metric(1), 104);
    let batch = queue.process_batch_at(106);
    assert!(batch.is_empty());
    let batch = queue.process_batch_at(110);
    assert_eq!(batch.len(), 1);
    assert_eq!(batch[0].metrics.len(), 2);
}

#[test]
fn counters_follow_adds_and_drains() {
    let mut queue = EventBatchQueue::new(0);
    queue.add(event_with_metric(1));
    queue.add(event_with_metric(1));
    queue.add(event_with_metric(2));
    queue.update_metrics();
    assert_eq!(queue.get_event_processed_per_second(), 3);
    let batch = queue.process_batch();
    assert_eq!(batch.len(), 2);
    // Three metric rows were drained: two merged on one record, one on the other.
    assert_eq!(queue.get_total_sent_events(), 3);
    assert_eq!(queue.get_total_processed_events(), 3);
    queue.update_metrics();
    assert_eq!(queue.get_event_batch_sent_per_second(), 1);
    assert_eq!(queue.get_event_processed_per_second(), 0);
}

#[test]
fn ingest_overrides_sensor_id_s2() {
    let mut queue = EventBatchQueue::new(0);
    let mut alert = alert_with_sid(42);
    alert.metadata.sensor_id = "sensor-x".to_string();
    let added = ingest_alert(&mut queue, alert, "sensor1");
    assert!(added);
    let batch = queue.process_batch();
    assert_eq!(batch.len(), 1);
    assert_eq!(batch[0].sensor_id, "sensor1");
    assert_eq!(batch[0].metrics.len(), 1);
}

#[test]
fn ingest_coalesces_same_line_twice() {
    let mut queue = EventBatchQueue::new(0);
    let alert = alert_with_sid(42);
    assert!(ingest_alert(&mut queue, alert.clone(), "sensor1"));
    assert!(ingest_alert(&mut queue, alert, "sensor1"));
    assert_eq!(queue.get_queue_size(), 1);
    let batch = queue.process_batch();
    assert_eq!(batch.len(), 1);
    assert_eq!(batch[0].metrics.len(), 2);
}
