use arm_bridge::channel::{subscriptions, Channel, DeliveryGuarantee, Subscription};
use arm_bridge::error::IngestError;
use arm_bridge::record::{decode, ingest, write_outcome, WirePayload};
use arm_bridge::timestamp::{normalize, split_millis, CalendarTimestamp};

fn wire(ts: i64, m: &str) -> Option<WirePayload> {
    Some(WirePayload { timestamp: ts, matrices: m.to_string() })
}

#[test]
fn millis_split_positive() {
    assert_eq!(split_millis(1700000000123), (1700000000, 123000000));
    let t = normalize(1700000000123).unwrap();
    assert_eq!(t, CalendarTimestamp { seconds: 1700000000, nanoseconds: 123000000 });
}

#[test]
fn millis_split_negative_floors() {
    assert_eq!(split_millis(-500), (-1, 500000000));
    assert_eq!(split_millis(-1000), (-1, 0));
    assert_eq!(split_millis(-1001), (-2, 999000000));
    let t = normalize(-500).unwrap();
    assert_eq!(t, CalendarTimestamp { seconds: -1, nanoseconds: 500000000 });
}

#[test]
fn millis_zero() {
    assert_eq!(normalize(0).unwrap(), CalendarTimestamp { seconds: 0, nanoseconds: 0 });
}

#[test]
fn timestamp_range_edges() {
    let max_ms: i64 = 253_402_300_799_999;
    let t = normalize(max_ms).unwrap();
    assert_eq!(t, CalendarTimestamp { seconds: 253_402_300_799, nanoseconds: 999000000 });
    assert_eq!(normalize(max_ms + 1), Err(IngestError::TimestampOutOfRange));
    let min_ms: i64 = -377_705_116_800_000;
    assert_eq!(normalize(min_ms).unwrap().seconds, -377_705_116_800);
    assert_eq!(normalize(min_ms - 1), Err(IngestError::TimestampOutOfRange));
    assert_eq!(normalize(i64::MAX), Err(IngestError::TimestampOutOfRange));
    assert_eq!(normalize(i64::MIN), Err(IngestError::TimestampOutOfRange));
}

#[test]
fn topics_resolve_to_channels() {
    assert_eq!(Channel::from_topic("left_arm"), Ok(Channel::LeftArm));
    assert_eq!(Channel::from_topic("right_arm"), Ok(Channel::RightArm));
    assert_eq!(Channel::from_topic("left_leg"), Err(IngestError::InvalidChannel));
    assert_eq!(Channel::from_topic(""), Err(IngestError::InvalidChannel));
    assert_eq!(Channel::from_topic("left_arm; DROP TABLE x"), Err(IngestError::InvalidChannel));
    assert_eq!(Channel::LeftArm.topic(), "left_arm");
    assert_eq!(Channel::RightArm.topic(), "right_arm");
}

#[test]
fn destinations_come_from_allow_list() {
    assert_eq!(
        Channel::LeftArm.insert_statement(),
        "INSERT INTO left_arm (timestamp, data) VALUES ($1, $2::jsonb)"
    );
    assert_eq!(
        Channel::RightArm.insert_statement(),
        "INSERT INTO right_arm (timestamp, data) VALUES ($1, $2::jsonb)"
    );
}

#[test]
fn unknown_topic_is_rejected_before_anything_else() {
    assert_eq!(ingest("wrist", wire(1, "{}")).err(), Some(IngestError::InvalidChannel));
    assert_eq!(ingest("wrist", None).err(), Some(IngestError::InvalidChannel));
    assert_eq!(decode("wrist", wire(1, "{}")).err(), Some(IngestError::InvalidChannel));
}

#[test]
fn malformed_payload_is_dropped_and_next_is_kept() {
    assert_eq!(ingest("left_arm", None).err(), Some(IngestError::Decode));
    let next = ingest("left_arm", wire(1700000000123, "{\"J1\":[[1.0]]}")).unwrap();
    assert_eq!(next.channel, Channel::LeftArm);
    assert_eq!(next.payload, "{\"J1\":[[1.0]]}");
}

#[test]
fn ingest_round_trips_time_and_payload() {
    let payload = "{\"J1\":[[0.5,1.5]],\"F6\":[[2.0]]}";
    let rec = ingest("right_arm", wire(1700000000123, payload)).unwrap();
    assert_eq!(rec.channel, Channel::RightArm);
    assert_eq!(rec.payload, payload);
    let back = rec.timestamp.seconds * 1000 + (rec.timestamp.nanoseconds / 1_000_000) as i64;
    assert_eq!(back, 1700000000123);
    let neg = ingest("left_arm", wire(-500, payload)).unwrap();
    assert_eq!(neg.timestamp, CalendarTimestamp { seconds: -1, nanoseconds: 500000000 });
}

#[test]
fn ingest_out_of_range_time() {
    assert_eq!(ingest("left_arm", wire(i64::MAX, "{}")).err(), Some(IngestError::TimestampOutOfRange));
}

#[test]
fn storage_failure_maps_to_error() {
    assert_eq!(write_outcome(true), Ok(()));
    assert_eq!(write_outcome(false), Err(IngestError::Storage));
    assert_eq!(IngestError::Storage.describe(), "storage write failed");
}

#[test]
fn delivery_levels() {
    assert_eq!(DeliveryGuarantee::from_level(0), Some(DeliveryGuarantee::AtMostOnce));
    assert_eq!(DeliveryGuarantee::from_level(1), Some(DeliveryGuarantee::AtLeastOnce));
    assert_eq!(DeliveryGuarantee::from_level(2), None);
    assert_eq!(DeliveryGuarantee::AtLeastOnce.level(), 1);
    let subs = subscriptions(DeliveryGuarantee::AtMostOnce, DeliveryGuarantee::AtLeastOnce);
    assert_eq!(
        subs,
        vec![
            Subscription { channel: Channel::LeftArm, guarantee: DeliveryGuarantee::AtMostOnce },
            Subscription { channel: Channel::RightArm, guarantee: DeliveryGuarantee::AtLeastOnce },
        ]
    );
}
