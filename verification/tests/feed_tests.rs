//! End-to-end tests: hand-encoded feed payloads through decoding,
//! flattening, per-feed isolation, and fetch aggregation.

use transit_flatten::decode::decode_feed_message;
use transit_flatten::pipeline::{
    collect_payloads, summary_table, trip_update_table, vehicle_position_table,
};

fn varint(value: u64) -> Vec<u8> {
    let mut v = value;
    let mut out: Vec<u8> = Vec::new();
    loop {
        let b: u8 = (v & 0x7f) as u8;
        v >>= 7;
        if v == 0 {
            out.push(b);
            return out;
        }
        out.push(b | 0x80);
    }
}

fn tag(num: u64, wire_type: u64) -> Vec<u8> {
    varint((num << 3) | wire_type)
}

fn len_delimited(num: u64, payload: &[u8]) -> Vec<u8> {
    let mut out = tag(num, 2);
    out.extend_from_slice(&varint(payload.len() as u64));
    out.extend_from_slice(payload);
    out
}

fn varint_field(num: u64, value: u64) -> Vec<u8> {
    let mut out = tag(num, 0);
    out.extend_from_slice(&varint(value));
    out
}

fn fixed32_field(num: u64, bits: u32) -> Vec<u8> {
    let mut out = tag(num, 5);
    out.extend_from_slice(&bits.to_le_bytes());
    out
}

fn header_field() -> Vec<u8> {
    // FeedHeader with its mandatory version marker.
    len_delimited(1, &len_delimited(1, b"2.0"))
}

fn feed_message(entities: &[Vec<u8>]) -> Vec<u8> {
    let mut out = header_field();
    for e in entities {
        out.extend_from_slice(&len_delimited(2, e));
    }
    out
}

fn entity(
    id: Option<&str>,
    trip_update: Option<&[u8]>,
    vehicle: Option<&[u8]>,
    alert: Option<&[u8]>,
) -> Vec<u8> {
    let mut out: Vec<u8> = Vec::new();
    if let Some(s) = id {
        out.extend_from_slice(&len_delimited(1, s.as_bytes()));
    }
    if let Some(tu) = trip_update {
        out.extend_from_slice(&len_delimited(3, tu));
    }
    if let Some(vp) = vehicle {
        out.extend_from_slice(&len_delimited(4, vp));
    }
    if let Some(a) = alert {
        out.extend_from_slice(&len_delimited(5, a));
    }
    out
}

fn trip_descriptor(
    trip_id: Option<&str>,
    route_id: Option<&str>,
    start_time: Option<&str>,
    start_date: Option<&str>,
) -> Vec<u8> {
    let mut out: Vec<u8> = Vec::new();
    if let Some(s) = trip_id {
        out.extend_from_slice(&len_delimited(1, s.as_bytes()));
    }
    if let Some(s) = start_time {
        out.extend_from_slice(&len_delimited(2, s.as_bytes()));
    }
    if let Some(s) = start_date {
        out.extend_from_slice(&len_delimited(3, s.as_bytes()));
    }
    if let Some(s) = route_id {
        out.extend_from_slice(&len_delimited(5, s.as_bytes()));
    }
    out
}

fn trip_update_payload(trip: Option<&[u8]>, stop_updates: usize) -> Vec<u8> {
    let mut out: Vec<u8> = Vec::new();
    if let Some(td) = trip {
        out.extend_from_slice(&len_delimited(1, td));
    }
    for _ in 0..stop_updates {
        // A stop-time update whose own fields are left unset.
        out.extend_from_slice(&len_delimited(2, &[]));
    }
    out
}

fn vehicle_payload(
    trip: Option<&[u8]>,
    position: Option<&[u8]>,
    descriptor: Option<&[u8]>,
) -> Vec<u8> {
    let mut out: Vec<u8> = Vec::new();
    if let Some(td) = trip {
        out.extend_from_slice(&len_delimited(1, td));
    }
    if let Some(p) = position {
        out.extend_from_slice(&len_delimited(2, p));
    }
    if let Some(d) = descriptor {
        out.extend_from_slice(&len_delimited(8, d));
    }
    out
}

fn vehicle_descriptor(id: Option<&str>, label: Option<&str>) -> Vec<u8> {
    let mut out: Vec<u8> = Vec::new();
    if let Some(s) = id {
        out.extend_from_slice(&len_delimited(1, s.as_bytes()));
    }
    if let Some(s) = label {
        out.extend_from_slice(&len_delimited(2, s.as_bytes()));
    }
    out
}

fn position_payload(
    latitude: Option<f32>,
    longitude: Option<f32>,
    bearing: Option<f32>,
    speed: Option<f32>,
) -> Vec<u8> {
    let mut out: Vec<u8> = Vec::new();
    if let Some(v) = latitude {
        out.extend_from_slice(&fixed32_field(1, v.to_bits()));
    }
    if let Some(v) = longitude {
        out.extend_from_slice(&fixed32_field(2, v.to_bits()));
    }
    if let Some(v) = bearing {
        out.extend_from_slice(&fixed32_field(3, v.to_bits()));
    }
    if let Some(v) = speed {
        out.extend_from_slice(&fixed32_field(5, v.to_bits()));
    }
    out
}

#[test]
fn three_entities_scenario() {
    // Entity A carries only a trip update, B only a vehicle position, C both.
    let tu = trip_update_payload(Some(&trip_descriptor(Some("t1"), Some("r1"), None, None)), 1);
    let vp = vehicle_payload(None, Some(&position_payload(Some(1.0), Some(2.0), None, None)), None);
    let a = entity(Some("A"), Some(&tu), None, None);
    let b = entity(Some("B"), None, Some(&vp), None);
    let c = entity(Some("C"), Some(&tu), Some(&vp), None);
    let bytes = feed_message(&[a, b, c]);

    let summary = summary_table(&bytes).unwrap();
    assert_eq!(summary.len(), 3);
    assert_eq!(summary[0].entity_id, b"A".to_vec());
    assert!(summary[0].has_trip_update);
    assert!(!summary[0].has_vehicle_position);
    assert!(!summary[0].has_alert);
    assert!(!summary[1].has_trip_update);
    assert!(summary[1].has_vehicle_position);
    assert!(summary[2].has_trip_update);
    assert!(summary[2].has_vehicle_position);

    let trips = trip_update_table(&bytes).unwrap();
    assert_eq!(trips.len(), 2);
    assert_eq!(trips[0].entity_id, b"A".to_vec());
    assert_eq!(trips[1].entity_id, b"C".to_vec());

    let vehicles = vehicle_position_table(&bytes).unwrap();
    assert_eq!(vehicles.len(), 2);
    assert_eq!(vehicles[0].entity_id, b"B".to_vec());
    assert_eq!(vehicles[1].entity_id, b"C".to_vec());
}

#[test]
fn trip_update_fields_extracted() {
    let td = trip_descriptor(Some("trip-7"), Some("route-9"), Some("12:00:00"), Some("20240101"));
    let tu = trip_update_payload(Some(&td), 3);
    let bytes = feed_message(&[entity(Some("e1"), Some(&tu), None, None)]);

    let rows = trip_update_table(&bytes).unwrap();
    assert_eq!(rows.len(), 1);
    assert_eq!(rows[0].entity_id, b"e1".to_vec());
    assert_eq!(rows[0].trip_id, b"trip-7".to_vec());
    assert_eq!(rows[0].route_id, b"route-9".to_vec());
    assert_eq!(rows[0].start_time, b"12:00:00".to_vec());
    assert_eq!(rows[0].start_date, b"20240101".to_vec());
    assert_eq!(rows[0].num_stop_updates, 3);
}

#[test]
fn absent_trip_descriptor_defaults_to_empty() {
    // A trip update with no descriptor: all four derived columns empty,
    // the stop-update count still extracted.
    let tu = trip_update_payload(None, 2);
    let bytes = feed_message(&[entity(Some("e1"), Some(&tu), None, None)]);

    let rows = trip_update_table(&bytes).unwrap();
    assert_eq!(rows.len(), 1);
    assert_eq!(rows[0].trip_id, Vec::<u8>::new());
    assert_eq!(rows[0].route_id, Vec::<u8>::new());
    assert_eq!(rows[0].start_time, Vec::<u8>::new());
    assert_eq!(rows[0].start_date, Vec::<u8>::new());
    assert_eq!(rows[0].num_stop_updates, 2);
}

#[test]
fn absent_position_defaults_to_zero() {
    let vp = vehicle_payload(None, None, Some(&vehicle_descriptor(Some("v1"), None)));
    let bytes = feed_message(&[entity(Some("e1"), None, Some(&vp), None)]);

    let rows = vehicle_position_table(&bytes).unwrap();
    assert_eq!(rows.len(), 1);
    assert_eq!(rows[0].latitude, 0.0f32.to_bits());
    assert_eq!(rows[0].longitude, 0.0f32.to_bits());
    assert_eq!(rows[0].bearing, 0.0f32.to_bits());
    assert_eq!(rows[0].speed, 0.0f32.to_bits());
    assert_eq!(rows[0].vehicle_id, b"v1".to_vec());
    assert_eq!(rows[0].vehicle_label, Vec::<u8>::new());
    assert_eq!(rows[0].trip_id, Vec::<u8>::new());
}

#[test]
fn position_values_extracted_exactly() {
    let pos = position_payload(Some(52.40625), Some(16.92), Some(270.0), Some(12.25));
    let td = trip_descriptor(Some("t2"), Some("r2"), None, None);
    let vp = vehicle_payload(Some(&td), Some(&pos), Some(&vehicle_descriptor(None, Some("Tram 5"))));
    let bytes = feed_message(&[entity(Some("e9"), None, Some(&vp), None)]);

    let rows = vehicle_position_table(&bytes).unwrap();
    assert_eq!(rows.len(), 1);
    assert_eq!(rows[0].latitude, 52.40625f32.to_bits());
    assert_eq!(rows[0].longitude, 16.92f32.to_bits());
    assert_eq!(rows[0].bearing, 270.0f32.to_bits());
    assert_eq!(rows[0].speed, 12.25f32.to_bits());
    assert_eq!(rows[0].vehicle_id, Vec::<u8>::new());
    assert_eq!(rows[0].vehicle_label, b"Tram 5".to_vec());
    assert_eq!(rows[0].trip_id, b"t2".to_vec());
    assert_eq!(rows[0].route_id, b"r2".to_vec());
}

#[test]
fn partial_position_defaults_bearing_and_speed() {
    // Latitude and longitude set, bearing and speed unset within a present
    // position: the two absent fields default independently.
    let pos = position_payload(Some(1.5), Some(-2.5), None, None);
    let vp = vehicle_payload(None, Some(&pos), None);
    let bytes = feed_message(&[entity(Some("e1"), None, Some(&vp), None)]);

    let rows = vehicle_position_table(&bytes).unwrap();
    assert_eq!(rows[0].latitude, 1.5f32.to_bits());
    assert_eq!(rows[0].longitude, (-2.5f32).to_bits());
    assert_eq!(rows[0].bearing, 0.0f32.to_bits());
    assert_eq!(rows[0].speed, 0.0f32.to_bits());
}

#[test]
fn malformed_feed_is_isolated() {
    // One feed's bytes are garbage: that feed fails, the others decode
    // normally from their own payloads.
    let good = feed_message(&[entity(Some("A"), None, None, None)]);
    let bad: Vec<u8> = vec![0x0a, 0xff, 0x07];

    assert!(summary_table(&bad).is_err());
    assert_eq!(trip_update_table(&good).unwrap().len(), 0);
    assert_eq!(summary_table(&good).unwrap().len(), 1);
    assert_eq!(vehicle_position_table(&good).unwrap().len(), 0);
}

#[test]
fn missing_header_is_malformed() {
    let mut bytes: Vec<u8> = Vec::new();
    bytes.extend_from_slice(&len_delimited(2, &entity(Some("A"), None, None, None)));
    assert!(decode_feed_message(&bytes).is_err());
}

#[test]
fn missing_header_version_is_malformed() {
    // A header without its mandatory version marker.
    let mut bytes = len_delimited(1, &varint_field(3, 99));
    bytes.extend_from_slice(&len_delimited(2, &entity(Some("A"), None, None, None)));
    assert!(decode_feed_message(&bytes).is_err());
}

#[test]
fn wrong_wire_type_is_malformed() {
    // An entity id carried as a varint instead of a byte string.
    let e = varint_field(1, 42);
    let bytes = feed_message(&[e]);
    assert!(decode_feed_message(&bytes).is_err());
}

#[test]
fn truncated_payload_is_malformed() {
    let mut bytes = feed_message(&[entity(Some("A"), None, None, None)]);
    bytes.pop();
    assert!(decode_feed_message(&bytes).is_err());
}

#[test]
fn empty_feed_decodes_to_empty_tables() {
    let bytes = header_field();
    assert_eq!(summary_table(&bytes).unwrap().len(), 0);
    assert_eq!(trip_update_table(&bytes).unwrap().len(), 0);
    assert_eq!(vehicle_position_table(&bytes).unwrap().len(), 0);
}

#[test]
fn unknown_fields_are_skipped() {
    let mut e = entity(Some("A"), None, None, None);
    e.extend_from_slice(&varint_field(99, 7));
    e.extend_from_slice(&fixed32_field(77, 123));
    let mut bytes = feed_message(&[e]);
    bytes.extend_from_slice(&varint_field(50, 1));

    let rows = summary_table(&bytes).unwrap();
    assert_eq!(rows.len(), 1);
    assert_eq!(rows[0].entity_id, b"A".to_vec());
}

#[test]
fn last_occurrence_of_a_field_wins() {
    let mut e = len_delimited(1, b"first");
    e.extend_from_slice(&len_delimited(1, b"second"));
    let bytes = feed_message(&[e]);

    let rows = summary_table(&bytes).unwrap();
    assert_eq!(rows[0].entity_id, b"second".to_vec());
}

#[test]
fn absent_entity_id_defaults_to_empty() {
    let e = entity(None, None, None, Some(&[]));
    let bytes = feed_message(&[e]);

    let rows = summary_table(&bytes).unwrap();
    assert_eq!(rows.len(), 1);
    assert_eq!(rows[0].entity_id, Vec::<u8>::new());
    assert!(rows[0].has_alert);
}

#[test]
fn malformed_alert_payload_is_malformed() {
    let e = entity(Some("A"), None, None, Some(&[0xff]));
    let bytes = feed_message(&[e]);
    assert!(decode_feed_message(&bytes).is_err());
}

#[test]
fn invalid_utf8_in_string_field_is_malformed() {
    let mut e: Vec<u8> = Vec::new();
    e.extend_from_slice(&len_delimited(1, &[0xff, 0xfe]));
    let bytes = feed_message(&[e]);
    assert!(decode_feed_message(&bytes).is_err());
}

#[test]
fn multibyte_utf8_id_is_accepted() {
    let e = entity(Some("poznań"), None, None, None);
    let bytes = feed_message(&[e]);
    let rows = summary_table(&bytes).unwrap();
    assert_eq!(rows[0].entity_id, "poznań".as_bytes().to_vec());
}

#[test]
fn long_byte_string_round_trips() {
    // A 300-byte id exercises the multi-byte varint length.
    let long: Vec<u8> = std::iter::repeat(b'x').take(300).collect();
    let long_str = String::from_utf8(long.clone()).unwrap();
    let e = entity(Some(&long_str), None, None, None);
    let bytes = feed_message(&[e]);

    let rows = summary_table(&bytes).unwrap();
    assert_eq!(rows[0].entity_id, long);
}

#[test]
fn ten_byte_varint_at_the_limit_is_accepted() {
    // A skipped field whose value needs the full ten varint bytes.
    let mut e = entity(Some("A"), None, None, None);
    e.extend_from_slice(&varint_field(9, u64::MAX));
    let bytes = feed_message(&[e]);
    let rows = summary_table(&bytes).unwrap();
    assert_eq!(rows[0].entity_id, b"A".to_vec());
}

#[test]
fn overlong_varint_is_malformed() {
    // An eleven-byte varint, however small its value, is rejected.
    let mut bytes = header_field();
    bytes.extend_from_slice(&tag(9, 0));
    bytes.extend_from_slice(&[0x80u8; 10]);
    bytes.push(0x00);
    assert!(decode_feed_message(&bytes).is_err());
}

#[test]
fn dictionary_parses_delimited_text() {
    let bytes: Vec<u8> = b"vehicle_id,label\n101,Tram A\n102,Tram B\n".to_vec();
    let df = transit_flatten::dictionary::dictionary_table(&bytes).unwrap();
    assert_eq!(df.height(), 2);
    assert_eq!(df.width(), 2);
    let names: Vec<String> = df.get_column_names().iter().map(|c| c.to_string()).collect();
    assert_eq!(names, vec![String::from("vehicle_id"), String::from("label")]);
}

#[test]
fn dictionary_rejects_empty_input() {
    let bytes: Vec<u8> = Vec::new();
    assert!(transit_flatten::dictionary::dictionary_table(&bytes).is_err());
}

#[test]
fn collect_payloads_preserves_order() {
    let results: Vec<Result<Vec<u8>, String>> = vec![
        Ok(vec![1u8, 2u8]),
        Ok(vec![3u8]),
        Ok(Vec::new()),
        Ok(vec![4u8, 5u8, 6u8]),
    ];
    let payloads = collect_payloads(results).unwrap();
    assert_eq!(payloads.len(), 4);
    assert_eq!(payloads[0], vec![1u8, 2u8]);
    assert_eq!(payloads[1], vec![3u8]);
    assert_eq!(payloads[2], Vec::<u8>::new());
    assert_eq!(payloads[3], vec![4u8, 5u8, 6u8]);
}

#[test]
fn collect_payloads_surfaces_first_error() {
    let results: Vec<Result<Vec<u8>, String>> = vec![
        Ok(vec![1u8]),
        Err(String::from("first failure")),
        Ok(vec![2u8]),
        Err(String::from("second failure")),
    ];
    let err = collect_payloads(results).unwrap_err();
    assert_eq!(err, String::from("first failure"));
}
