//! Tests of the timestamp parser, the decimal rendering, the hash helper
//! and the remaining small public items.

use sensor_suricata_service_rust::config::ClientConfig;
use sensor_suricata_service_rust::hashing::hash_hex;
use sensor_suricata_service_rust::listener::{select_worker, Listener};
use sensor_suricata_service_rust::strutil::{i64_to_string, str_eq, u64_to_string};
use sensor_suricata_service_rust::timestamp::parse_timestamp;

#[test]
fn parses_suricata_timestamp() {
    assert_eq!(
        parse_timestamp("2025-12-15T07:46:41.123456+0000"),
        1765784801
    );
}

#[test]
fn applies_positive_zone_offset() {
    assert_eq!(
        parse_timestamp("2025-12-15T07:46:41.123456+0530"),
        1765765001
    );
}

#[test]
fn applies_negative_zone_offset() {
    assert_eq!(
        parse_timestamp("2025-12-15T07:46:41.123456-0700"),
        1765810001
    );
}

#[test]
fn parses_epoch_and_leap_day() {
    assert_eq!(parse_timestamp("1970-01-01T00:00:00.000000+0000"), 0);
    assert_eq!(
        parse_timestamp("2000-02-29T23:59:59.999999+0000"),
        951868799
    );
}

#[test]
fn rejects_malformed_timestamps() {
    assert_eq!(parse_timestamp(""), 0);
    assert_eq!(parse_timestamp("2025-12-15"), 0);
    assert_eq!(parse_timestamp("2025-12-15 07:46:41.123456+0000"), 0);
    assert_eq!(parse_timestamp("2025-13-15T07:46:41.123456+0000"), 0);
    assert_eq!(parse_timestamp("2025-00-15T07:46:41.123456+0000"), 0);
    assert_eq!(parse_timestamp("2025-12-15T24:46:41.123456+0000"), 0);
    assert_eq!(parse_timestamp("2025-12-15T07:46:41.12345x+0000"), 0);
    assert_eq!(parse_timestamp("2025-12-15T07:46:41.123456~0000"), 0);
    assert_eq!(parse_timestamp("not a timestamp, but 31 chars!!"), 0);
}

#[test]
fn renders_integers_in_decimal() {
    assert_eq!(u64_to_string(0), "0");
    assert_eq!(u64_to_string(7), "7");
    assert_eq!(u64_to_string(2100498), "2100498");
    assert_eq!(u64_to_string(u64::MAX), "18446744073709551615");
    assert_eq!(i64_to_string(0), "0");
    assert_eq!(i64_to_string(-1), "-1");
    assert_eq!(i64_to_string(42), "42");
    assert_eq!(i64_to_string(i64::MIN), "-9223372036854775808");
    assert_eq!(i64_to_string(i64::MAX), "9223372036854775807");
}

#[test]
fn compares_strings_by_characters() {
    assert!(str_eq("", ""));
    assert!(str_eq("TCP", "TCP"));
    assert!(!str_eq("TCP", "UDP"));
    assert!(!str_eq("TCP", "TC"));
    assert!(!str_eq("TC", "TCP"));
}

#[test]
fn hash_hex_matches_known_sha256() {
    // SHA-256 of "abc", a published test vector.
    assert_eq!(
        hash_hex("abc"),
        "ba7816bf8f01cfea414140de5dae2223b00361a396177a9cb410ff61f20015ad"
    );
    assert_eq!(
        hash_hex(""),
        "e3b0c44298fc1c149afbf4c8996fb92427ae41e4649b934ca495991b7852b855"
    );
}

#[test]
fn config_defaults_match_documentation() {
    let c = ClientConfig::new();
    assert_eq!(c.file, "/var/run/suricata.sock");
    assert_eq!(c.server, "localhost");
    assert_eq!(c.port, 50051);
    assert!(c.insecure);
    assert_eq!(c.interval, 1);
    assert_eq!(c.sensor_id, "sensor1");
    assert!(!c.testing_mode);
    assert_eq!(c.max_clients, None);
    assert_eq!(c.max_message_size, 100);
    assert_eq!(c.verbose, 0);
}

#[test]
fn listener_counts_reads_per_second() {
    let mut l = Listener::new("/tmp/suricata.sock");
    assert_eq!(l.get_socket_path(), "/tmp/suricata.sock");
    assert_eq!(l.get_event_read_per_second(), 0);
    l.record_read();
    l.record_read();
    l.record_read();
    l.update_metrics();
    assert_eq!(l.get_event_read_per_second(), 3);
    l.record_read();
    l.update_metrics();
    assert_eq!(l.get_event_read_per_second(), 1);
}

#[test]
fn round_robin_worker_selection() {
    assert_eq!(select_worker(0, 4), 0);
    assert_eq!(select_worker(1, 4), 1);
    assert_eq!(select_worker(4, 4), 0);
    assert_eq!(select_worker(7, 4), 3);
    assert_eq!(select_worker(12345, 1), 0);
}
