//! The normalizer: one parsed Suricata alert becomes one canonical
//! `SensorEvent` plus one `Metric` row, including the content hash that the
//! coalescing queue deduplicates by.
//!
//! The hash is SHA-256 over a canonical serialization of the event taken
//! while its metric sequence is still empty: every field except the metric
//! rows and the hash itself, in alphabetical field-name order, rendered as
//! `name=value;` with integers in decimal, optional values prefixed `=` when
//! present and written `~` when absent. The serialization is deterministic,
//! so equal events always carry equal hashes.

use vstd::prelude::*;

use crate::hashing;
use crate::queue::{spec_add, EventBatchQueue};
use crate::hashing::{hash_wf, spec_hash_hex};
use crate::strutil;
use crate::strutil::spec_i64_str;
use crate::timestamp;
use vstd::wrapping::i64_specs;
use crate::timestamp::spec_parse_timestamp;
use crate::types::{
    str_or_empty, view_opt_str, Metric, MetricView, SensorEvent, SensorEventView, SuricataAlert,
};

verus! {

/// The integer of an optional field, or zero.
pub open spec fn opt_or_zero(o: Option<i64>) -> i64 {
    match o {
        Option::Some(n) => n,
        Option::None => 0,
    }
}

/// The integer of an optional field, or a default.
pub open spec fn opt_or(o: Option<i64>, d: i64) -> i64 {
    match o {
        Option::Some(n) => n,
        Option::None => d,
    }
}

/// The Ethernet type string: `"0x86dd"` for IPv6, `"0x800"` otherwise.
pub open spec fn spec_eth_type(ip_version: i64) -> Seq<char> {
    if ip_version == 6 {
        "0x86dd"@
    } else {
        "0x800"@
    }
}

/// The Ethernet frame length derived from the packet length; the addition
/// wraps on the (unreachable in practice) extreme of the `i64` range.
pub open spec fn spec_eth_len(pkt_len: i64) -> i64 {
    vstd::wrapping::i64_specs::wrapping_add(pkt_len, 18)
}

/// The TCP payload length: present exactly when the protocol is TCP and the
/// packet is long enough for the result to be strictly positive.
pub open spec fn spec_tcp_len(proto: Seq<char>, pkt_len: i64) -> Option<i64> {
    if proto == "TCP"@ && pkt_len > 34 {
        Option::Some((pkt_len - 34) as i64)
    } else {
        Option::None
    }
}

/// The UDP datagram length: present exactly when the protocol is UDP and the
/// packet is long enough for the result to be strictly positive.
pub open spec fn spec_udp_len(proto: Seq<char>, pkt_len: i64) -> Option<i64> {
    if proto == "UDP"@ && pkt_len > 20 {
        Option::Some((pkt_len - 20) as i64)
    } else {
        Option::None
    }
}

/// Derives the Ethernet type string from the IP version.
pub fn derive_eth_type(ip_version: i64) -> (r: String)
    ensures
        r@ == spec_eth_type(ip_version),
        (r@ == "0x86dd"@) <==> ip_version == 6,
{
    proof {
        reveal_strlit("0x800");
        reveal_strlit("0x86dd");
    }
    if ip_version == 6 {
        String::from_str("0x86dd")
    } else {
        String::from_str("0x800")
    }
}

/// Derives the Ethernet frame length from the packet length.
pub fn derive_eth_len(pkt_len: i64) -> (r: i64)
    ensures
        r == spec_eth_len(pkt_len),
{
    pkt_len.wrapping_add(18)
}

/// Copies the packet source description verbatim.
pub fn derive_pkt_gen(pkt_src: &str) -> (r: String)
    ensures
        r@ == pkt_src@,
{
    pkt_src.to_owned()
}

/// Derives the TCP payload length: `pkt_len - 34` when the protocol is TCP
/// and the result is strictly positive, absent otherwise.
pub fn derive_tcp_len(proto: &str, pkt_len: i64) -> (r: Option<i64>)
    ensures
        r == spec_tcp_len(proto@, pkt_len),
        r is Some <==> (proto@ == "TCP"@ && pkt_len > 34),
{
    if strutil::str_eq(proto, "TCP") && pkt_len > 34 {
        Some(pkt_len - 34)
    } else {
        None
    }
}

/// Derives the UDP datagram length: `pkt_len - 20` when the protocol is UDP
/// and the result is strictly positive, absent otherwise.
pub fn derive_udp_len(proto: &str, pkt_len: i64) -> (r: Option<i64>)
    ensures
        r == spec_udp_len(proto@, pkt_len),
        r is Some <==> (proto@ == "UDP"@ && pkt_len > 20),
{
    if strutil::str_eq(proto, "UDP") && pkt_len > 20 {
        Some(pkt_len - 20)
    } else {
        None
    }
}

/// Canonical rendering of an optional string: `=` followed by the value
/// when present, `~` when absent.
pub open spec fn ser_opt_str(o: Option<Seq<char>>) -> Seq<char> {
    match o {
        Option::Some(s) => "="@ + s,
        Option::None => "~"@,
    }
}

/// Canonical rendering of an optional integer: `=` followed by the decimal
/// value when present, `~` when absent.
pub open spec fn ser_opt_i64(o: Option<i64>) -> Seq<char> {
    match o {
        Option::Some(n) => "="@ + spec_i64_str(n as int),
        Option::None => "~"@,
    }
}

/// The canonical serialization of an event that feeds its content hash:
/// every field except the metric rows and the hash itself, in alphabetical
/// field-name order, each rendered as `name=value;`.
pub open spec fn spec_hash_input(e: SensorEventView) -> Seq<char> {
    "event_metrics_count="@ + spec_i64_str(e.event_metrics_count as int) + ";event_read_at="@
        + spec_i64_str(e.event_read_at as int) + ";event_received_at="@ + spec_i64_str(
        e.event_received_at as int,
    ) + ";event_seconds="@ + spec_i64_str(e.event_seconds as int) + ";event_sent_at="@
        + spec_i64_str(e.event_sent_at as int) + ";sensor_id="@ + e.sensor_id + ";sensor_version="@
        + e.sensor_version + ";snort_action="@ + ser_opt_str(e.snort_action)
        + ";snort_classification="@ + ser_opt_str(e.snort_classification) + ";snort_direction="@
        + ser_opt_str(e.snort_direction) + ";snort_interface="@ + e.snort_interface
        + ";snort_message="@ + e.snort_message + ";snort_priority="@ + spec_i64_str(
        e.snort_priority as int,
    ) + ";snort_protocol="@ + e.snort_protocol + ";snort_rule="@ + e.snort_rule
        + ";snort_rule_gid="@ + spec_i64_str(e.snort_rule_gid as int) + ";snort_rule_rev="@
        + spec_i64_str(e.snort_rule_rev as int) + ";snort_rule_sid="@ + spec_i64_str(
        e.snort_rule_sid as int,
    ) + ";snort_seconds="@ + spec_i64_str(e.snort_seconds as int) + ";snort_service="@
        + ser_opt_str(e.snort_service) + ";snort_type_of_service="@ + ser_opt_i64(
        e.snort_type_of_service,
    ) + ";"@
}

/// The hash string of an event: lowercase hex of the SHA-256 digest of its
/// canonical serialization.
pub open spec fn spec_event_hash(e: SensorEventView) -> Seq<char> {
    spec_hash_hex(spec_hash_input(e))
}

fn append_opt_str(out: &mut String, o: &Option<String>)
    ensures
        final(out)@ == old(out)@ + ser_opt_str(view_opt_str(*o)),
{
    match o {
        Some(s) => {
            out.append("=");
            out.append(s.as_str());
        },
        None => {
            out.append("~");
        },
    }
}

fn append_opt_i64(out: &mut String, o: &Option<i64>)
    ensures
        final(out)@ == old(out)@ + ser_opt_i64(*o),
{
    match o {
        Some(n) => {
            out.append("=");
            out.append(strutil::i64_to_string(*n).as_str());
        },
        None => {
            out.append("~");
        },
    }
}

fn append_i64(out: &mut String, n: i64)
    ensures
        final(out)@ == old(out)@ + spec_i64_str(n as int),
{
    out.append(strutil::i64_to_string(n).as_str());
}

/// Builds the canonical serialization of an event, as fed to the hash.
pub fn serialize_for_hash(e: &SensorEvent) -> (r: String)
    ensures
        r@ == spec_hash_input(e@),
{
    let mut out = String::new();
    out.append("event_metrics_count=");
    append_i64(&mut out, e.event_metrics_count);
    out.append(";event_read_at=");
    append_i64(&mut out, e.event_read_at);
    out.append(";event_received_at=");
    append_i64(&mut out, e.event_received_at);
    out.append(";event_seconds=");
    append_i64(&mut out, e.event_seconds);
    out.append(";event_sent_at=");
    append_i64(&mut out, e.event_sent_at);
    out.append(";sensor_id=");
    out.append(e.sensor_id.as_str());
    out.append(";sensor_version=");
    out.append(e.sensor_version.as_str());
    out.append(";snort_action=");
    append_opt_str(&mut out, &e.snort_action);
    out.append(";snort_classification=");
    append_opt_str(&mut out, &e.snort_classification);
    out.append(";snort_direction=");
    append_opt_str(&mut out, &e.snort_direction);
    out.append(";snort_interface=");
    out.append(e.snort_interface.as_str());
    out.append(";snort_message=");
    out.append(e.snort_message.as_str());
    out.append(";snort_priority=");
    append_i64(&mut out, e.snort_priority);
    out.append(";snort_protocol=");
    out.append(e.snort_protocol.as_str());
    out.append(";snort_rule=");
    out.append(e.snort_rule.as_str());
    out.append(";snort_rule_gid=");
    append_i64(&mut out, e.snort_rule_gid);
    out.append(";snort_rule_rev=");
    append_i64(&mut out, e.snort_rule_rev);
    out.append(";snort_rule_sid=");
    append_i64(&mut out, e.snort_rule_sid);
    out.append(";snort_seconds=");
    append_i64(&mut out, e.snort_seconds);
    out.append(";snort_service=");
    append_opt_str(&mut out, &e.snort_service);
    out.append(";snort_type_of_service=");
    append_opt_i64(&mut out, &e.snort_type_of_service);
    out.append(";");
    out
}

/// Computes the content hash of an event: 64 lowercase hexadecimal digits.
pub fn generate_hash_sha256(payload: &SensorEvent) -> (r: String)
    ensures
        r@ == spec_event_hash(payload@),
        hash_wf(r@),
{
    let serialized = serialize_for_hash(payload);
    hashing::hash_hex(serialized.as_str())
}

/// The `"{gid}:{sid}:{rev}"` rule string.
pub open spec fn spec_rule_str(gid: i64, sid: i64, rev: i64) -> Seq<char> {
    spec_i64_str(gid as int) + ":"@ + spec_i64_str(sid as int) + ":"@ + spec_i64_str(rev as int)
}

/// The `"ip:port"` endpoint string.
pub open spec fn spec_ap(ip: Seq<char>, port: i64) -> Seq<char> {
    ip + ":"@ + spec_i64_str(port as int)
}

/// The optional endpoint string: present exactly when both the address and
/// the port are present.
pub open spec fn spec_endpoint(ip: Option<String>, port: Option<i64>) -> Option<Seq<char>> {
    match (ip, port) {
        (Option::Some(i), Option::Some(p)) => Option::Some(spec_ap(i@, p)),
        _ => Option::None,
    }
}

/// The canonical event built from an alert, before its hash is filled in:
/// rule identity from the `alert` sub-record, timing and interface fields
/// from the outer record, the sensor identity `sid`, an empty hash and no
/// metric rows yet.
pub open spec fn spec_event_base(a: SuricataAlert, sid: Seq<char>) -> SensorEventView {
    let al = a.alert->Some_0;
    SensorEventView {
        metrics: Seq::empty(),
        event_hash_sha256: Seq::empty(),
        event_metrics_count: 1,
        event_seconds: spec_parse_timestamp(a.timestamp@),
        sensor_id: sid,
        sensor_version: a.metadata.sensor_version@,
        snort_action: Option::Some(al.action@),
        snort_classification: Option::Some(al.category@),
        snort_direction: view_opt_str(a.direction),
        snort_interface: str_or_empty(a.in_iface),
        snort_message: al.signature@,
        snort_priority: al.severity,
        snort_protocol: str_or_empty(a.proto),
        snort_rule_gid: al.gid,
        snort_rule_rev: al.rev,
        snort_rule_sid: al.signature_id,
        snort_rule: spec_rule_str(al.gid, al.signature_id, al.rev),
        snort_seconds: spec_parse_timestamp(a.timestamp@),
        snort_service: view_opt_str(a.app_proto),
        snort_type_of_service: Option::Some(0),
        event_read_at: a.metadata.read_at,
        event_sent_at: a.metadata.sent_at,
        event_received_at: a.metadata.received_at,
    }
}

/// The canonical event built from an alert: the base event with its content
/// hash filled in.
pub open spec fn spec_event_of(a: SuricataAlert, sid: Seq<char>) -> SensorEventView {
    let base = spec_event_base(a, sid);
    SensorEventView { event_hash_sha256: spec_event_hash(base), ..base }
}

/// The single metric row built from an alert's flow, Ethernet and
/// packet-level fields.
pub open spec fn spec_metric_of(a: SuricataAlert) -> MetricView {
    let pkt0 = opt_or_zero(a.pkt_len);
    MetricView {
        snort_timestamp: a.timestamp@,
        snort_base64_data: view_opt_str(a.payload),
        snort_client_bytes: match a.flow {
            Option::Some(f) => f.bytes_toserver,
            Option::None => Option::None,
        },
        snort_client_pkts: match a.flow {
            Option::Some(f) => f.pkts_toserver,
            Option::None => Option::None,
        },
        snort_dst_address: view_opt_str(a.dest_ip),
        snort_dst_port: a.dest_port,
        snort_dst_ap: spec_endpoint(a.dest_ip, a.dest_port),
        snort_eth_dst: match a.ether {
            Option::Some(e) => view_opt_str(e.dest_mac),
            Option::None => Option::None,
        },
        snort_eth_len: Option::Some(spec_eth_len(pkt0)),
        snort_eth_src: match a.ether {
            Option::Some(e) => view_opt_str(e.src_mac),
            Option::None => Option::None,
        },
        snort_eth_type: Option::Some(spec_eth_type(opt_or(a.ip_v, 4))),
        snort_flowstart_time: match a.flow {
            Option::Some(f) => match f.start {
                Option::Some(st) => Option::Some(spec_parse_timestamp(st@)),
                Option::None => Option::None,
            },
            Option::None => Option::None,
        },
        snort_icmp_code: a.icmp_code,
        snort_icmp_type: a.icmp_type,
        snort_pkt_gen: Option::Some(str_or_empty(a.pkt_src)),
        snort_pkt_length: a.pkt_len,
        snort_pkt_number: a.pcap_cnt,
        snort_server_bytes: match a.flow {
            Option::Some(f) => f.bytes_toclient,
            Option::None => Option::None,
        },
        snort_server_pkts: match a.flow {
            Option::Some(f) => f.pkts_toclient,
            Option::None => Option::None,
        },
        snort_src_address: view_opt_str(a.src_ip),
        snort_src_port: a.src_port,
        snort_src_ap: spec_endpoint(a.src_ip, a.src_port),
        snort_tcp_flags: Option::None,
        snort_tcp_len: spec_tcp_len(str_or_empty(a.proto), pkt0),
        snort_time_to_live: Option::Some(0),
        snort_udp_length: spec_udp_len(str_or_empty(a.proto), pkt0),
        snort_vlan: Option::Some(0),
    }
}

fn clone_opt_str(o: &Option<String>) -> (r: Option<String>)
    ensures
        view_opt_str(r) == view_opt_str(*o),
{
    match o {
        Some(s) => Some(s.clone()),
        None => None,
    }
}

fn clone_str_or_empty(o: &Option<String>) -> (r: String)
    ensures
        r@ == str_or_empty(*o),
{
    match o {
        Some(s) => s.clone(),
        None => String::new(),
    }
}

fn make_endpoint(ip: &Option<String>, port: &Option<i64>) -> (r: Option<String>)
    ensures
        view_opt_str(r) == spec_endpoint(*ip, *port),
{
    match (ip, port) {
        (Some(i), Some(p)) => {
            let mut s = i.clone();
            s.append(":");
            s.append(strutil::i64_to_string(*p).as_str());
            Some(s)
        },
        _ => None,
    }
}

/// Normalizes one parsed alert: returns the canonical event and its single
/// metric row, or nothing when the record has no `alert` sub-record. The
/// caller appends the metric row to the event before queue insertion.
pub fn convert_suricata_alert_to_sensor_event(data: &SuricataAlert) -> (r: Option<
    (SensorEvent, Metric),
>)
    ensures
        match r {
            Option::Some(p) => {
                &&& data.alert is Some
                &&& p.0@ == spec_event_of(*data, data.metadata.sensor_id@)
                &&& p.1@ == spec_metric_of(*data)
                &&& hash_wf(p.0.event_hash_sha256@)
            },
            Option::None => data.alert is None,
        },
{
    let alert = match &data.alert {
        Some(al) => al,
        None => {
            return None;
        },
    };
    let ts_secs = timestamp::parse_timestamp(data.timestamp.as_str());
    let mut rule = strutil::i64_to_string(alert.gid);
    rule.append(":");
    rule.append(strutil::i64_to_string(alert.signature_id).as_str());
    rule.append(":");
    rule.append(strutil::i64_to_string(alert.rev).as_str());
    let mut sensor_event = SensorEvent {
        metrics: Vec::new(),
        event_hash_sha256: String::new(),
        event_metrics_count: 1,
        event_seconds: ts_secs,
        sensor_id: data.metadata.sensor_id.clone(),
        sensor_version: data.metadata.sensor_version.clone(),
        snort_action: Some(alert.action.clone()),
        snort_classification: Some(alert.category.clone()),
        snort_direction: clone_opt_str(&data.direction),
        snort_interface: clone_str_or_empty(&data.in_iface),
        snort_message: alert.signature.clone(),
        snort_priority: alert.severity,
        snort_protocol: clone_str_or_empty(&data.proto),
        snort_rule_gid: alert.gid,
        snort_rule_rev: alert.rev,
        snort_rule_sid: alert.signature_id,
        snort_rule: rule,
        snort_seconds: ts_secs,
        snort_service: clone_opt_str(&data.app_proto),
        snort_type_of_service: Some(0),
        event_read_at: data.metadata.read_at,
        event_sent_at: data.metadata.sent_at,
        event_received_at: data.metadata.received_at,
    };
    proof {
        assert(sensor_event@.metrics =~= spec_event_base(*data, data.metadata.sensor_id@).metrics);
        assert(sensor_event@ == spec_event_base(*data, data.metadata.sensor_id@));
    }
    let hash = generate_hash_sha256(&sensor_event);
    sensor_event.event_hash_sha256 = hash;
    let pkt0 = match data.pkt_len {
        Some(p) => p,
        None => 0,
    };
    let proto_str = clone_str_or_empty(&data.proto);
    let flowstart = match &data.flow {
        Some(f) => match &f.start {
            Some(st) => Some(timestamp::parse_timestamp(st.as_str())),
            None => None,
        },
        None => None,
    };
    let sensor_metric = Metric {
        snort_timestamp: data.timestamp.clone(),
        snort_base64_data: clone_opt_str(&data.payload),
        snort_client_bytes: match &data.flow {
            Some(f) => f.bytes_toserver,
            None => None,
        },
        snort_client_pkts: match &data.flow {
            Some(f) => f.pkts_toserver,
            None => None,
        },
        snort_dst_address: clone_opt_str(&data.dest_ip),
        snort_dst_port: data.dest_port,
        snort_dst_ap: make_endpoint(&data.dest_ip, &data.dest_port),
        snort_eth_dst: match &data.ether {
            Some(e) => clone_opt_str(&e.dest_mac),
            None => None,
        },
        snort_eth_len: Some(derive_eth_len(pkt0)),
        snort_eth_src: match &data.ether {
            Some(e) => clone_opt_str(&e.src_mac),
            None => None,
        },
        snort_eth_type: Some(
            derive_eth_type(
                match data.ip_v {
                    Some(v) => v,
                    None => 4,
                },
            ),
        ),
        snort_flowstart_time: flowstart,
        snort_icmp_code: data.icmp_code,
        snort_icmp_type: data.icmp_type,
        snort_pkt_gen: Some(
            match &data.pkt_src {
                Some(s) => derive_pkt_gen(s.as_str()),
                None => String::new(),
            },
        ),
        snort_pkt_length: data.pkt_len,
        snort_pkt_number: data.pcap_cnt,
        snort_server_bytes: match &data.flow {
            Some(f) => f.bytes_toclient,
            None => None,
        },
        snort_server_pkts: match &data.flow {
            Some(f) => f.pkts_toclient,
            None => None,
        },
        snort_src_address: clone_opt_str(&data.src_ip),
        snort_src_port: data.src_port,
        snort_src_ap: make_endpoint(&data.src_ip, &data.src_port),
        snort_tcp_flags: None,
        snort_tcp_len: derive_tcp_len(proto_str.as_str(), pkt0),
        snort_time_to_live: Some(0),
        snort_udp_length: derive_udp_len(proto_str.as_str(), pkt0),
        snort_vlan: Some(0),
    };
    Some((sensor_event, sensor_metric))
}

/// The event a parser worker enqueues for an alert: the canonical event with
/// its one metric row attached.
pub open spec fn spec_ingested_event(a: SuricataAlert, sid: Seq<char>) -> SensorEventView {
    let base = spec_event_of(a, sid);
    SensorEventView { metrics: seq![spec_metric_of(a)], ..base }
}

/// One parser-worker step: stamps the configured sensor identity over
/// whatever the alert carried, normalizes, attaches the metric row and
/// inserts into the queue. Returns whether anything was enqueued — exactly
/// when the record has an `alert` sub-record.
pub fn ingest_alert(queue: &mut EventBatchQueue, alert: SuricataAlert, sensor_id: &str) -> (added:
    bool)
    requires
        old(queue).wf(),
    ensures
        final(queue).wf(),
        added == (alert.alert is Some),
        !added ==> final(queue)@ == old(queue)@ && final(queue).spec_event_this_sec() == old(
            queue,
        ).spec_event_this_sec(),
        added ==> exists|t: i64|
            t >= 0 && final(queue)@ == spec_add(
                old(queue)@,
                spec_ingested_event(alert, sensor_id@),
                t,
            ),
        added ==> final(queue).spec_event_this_sec() == i64_specs::wrapping_add(
            old(queue).spec_event_this_sec(),
            1,
        ),
        added ==> hash_wf(spec_ingested_event(alert, sensor_id@).event_hash_sha256),
        final(queue).spec_delta() == old(queue).spec_delta(),
        final(queue).spec_latest_event_per_sec() == old(queue).spec_latest_event_per_sec(),
        final(queue).spec_latest_batch_per_sec() == old(queue).spec_latest_batch_per_sec(),
        final(queue).spec_batch_this_sec() == old(queue).spec_batch_this_sec(),
        final(queue).spec_total_sent() == old(queue).spec_total_sent(),
        final(queue).spec_total_processed() == old(queue).spec_total_processed(),
{
    let mut stamped = alert;
    stamped.metadata.sensor_id = sensor_id.to_owned();
    proof {
        assert(spec_event_base(stamped, sensor_id@) == spec_event_base(alert, sensor_id@));
        assert(spec_event_of(stamped, sensor_id@) == spec_event_of(alert, sensor_id@));
        assert(spec_metric_of(stamped) == spec_metric_of(alert));
    }
    match convert_suricata_alert_to_sensor_event(&stamped) {
        Some((event, metric)) => {
            let mut event = event;
            event.metrics.push(metric);
            proof {
                assert(event@.metrics =~= seq![spec_metric_of(alert)]);
                assert(event@ == spec_ingested_event(alert, sensor_id@));
            }
            queue.add(event);
            true
        },
        None => false,
    }
}

/// Normalization is deterministic: equal alerts produce equal canonical
/// events — in particular byte-identical content hashes — and equal metric
/// rows, whatever sensor identity is stamped on them.
pub proof fn lemma_normalize_deterministic(a1: SuricataAlert, a2: SuricataAlert, sid: Seq<char>)
    requires
        a1 == a2,
    ensures
        spec_event_of(a1, sid) == spec_event_of(a2, sid),
        spec_event_of(a1, sid).event_hash_sha256 == spec_event_of(a2, sid).event_hash_sha256,
        spec_metric_of(a1) == spec_metric_of(a2),
{
}

/// An endpoint `"ip:port"` string is present exactly when both the address
/// and the port are present.
pub proof fn lemma_endpoint_iff(ip: Option<String>, port: Option<i64>)
    ensures
        spec_endpoint(ip, port) is Some <==> (ip is Some && port is Some),
{
}

} // verus!
