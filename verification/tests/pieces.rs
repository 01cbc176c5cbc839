use profile_ingest::batch::{package, stamp, InsertBatch, KafkaMessageMetadata, RowData};
use profile_ingest::error::ProcessError;
use profile_ingest::field::{Field, Kind, Presence};
use profile_ingest::record::ProfileMessage;
use profile_ingest::timestamp::CalendarInstant;

const FIELDS: [Field; 24] = [
    Field::AndroidApiLevel,
    Field::Architecture,
    Field::DeviceClassification,
    Field::DeviceLocale,
    Field::DeviceManufacturer,
    Field::DeviceModel,
    Field::DeviceOsBuildNumber,
    Field::DeviceOsName,
    Field::DeviceOsVersion,
    Field::DurationNs,
    Field::Environment,
    Field::OrganizationId,
    Field::Platform,
    Field::ProfileId,
    Field::ProjectId,
    Field::Received,
    Field::RetentionDays,
    Field::TraceId,
    Field::TransactionId,
    Field::TransactionName,
    Field::VersionCode,
    Field::VersionName,
    Field::Offset,
    Field::Partition,
];

fn instant(epoch_seconds: i64) -> CalendarInstant {
    CalendarInstant {
        epoch_seconds,
        year: 1970,
        month: 1,
        day: 1,
        hour: 0,
        minute: 0,
        second: epoch_seconds as u32,
        nanosecond: 0,
    }
}

fn record(offset: u64, partition: u16) -> ProfileMessage {
    ProfileMessage {
        android_api_level: Some(30),
        architecture: Some("x86_64".to_string()),
        device_classification: "mid".to_string(),
        device_locale: "de_DE".to_string(),
        device_manufacturer: "Acme".to_string(),
        device_model: "One".to_string(),
        device_os_build_number: None,
        device_os_name: "android".to_string(),
        device_os_version: "11".to_string(),
        duration_ns: 5,
        environment: None,
        organization_id: 2,
        platform: "android".to_string(),
        profile_id: 1,
        project_id: 3,
        received: 4,
        retention_days: 30,
        trace_id: 2,
        transaction_id: 3,
        transaction_name: "start".to_string(),
        version_code: "1".to_string(),
        version_name: "1.0".to_string(),
        offset,
        partition,
    }
}

#[test]
fn wire_names_are_those_of_the_schema() {
    let names: Vec<&str> = FIELDS.iter().map(|field| field.name()).collect();
    assert_eq!(
        names,
        vec![
            "android_api_level",
            "architecture",
            "device_classification",
            "device_locale",
            "device_manufacturer",
            "device_model",
            "device_os_build_number",
            "device_os_name",
            "device_os_version",
            "duration_ns",
            "environment",
            "organization_id",
            "platform",
            "profile_id",
            "project_id",
            "received",
            "retention_days",
            "trace_id",
            "transaction_id",
            "transaction_name",
            "version_code",
            "version_name",
            "offset",
            "partition",
        ]
    );
}

#[test]
fn five_fields_are_optional_and_two_discarded() {
    let optional: Vec<&str> = FIELDS
        .iter()
        .filter(|field| matches!(field.presence_of(), Presence::Optional))
        .map(|field| field.name())
        .collect();
    assert_eq!(
        optional,
        vec!["android_api_level", "architecture", "device_classification", "device_os_build_number", "environment"]
    );
    let discarded: Vec<&str> = FIELDS
        .iter()
        .filter(|field| matches!(field.presence_of(), Presence::Discarded))
        .map(|field| field.name())
        .collect();
    assert_eq!(discarded, vec!["offset", "partition"]);
    let required = FIELDS.iter().filter(|field| matches!(field.presence_of(), Presence::Required)).count();
    assert_eq!(required, 17);
}

#[test]
fn kinds_are_those_of_the_schema() {
    let of_kind = |wanted: fn(&Kind) -> bool| -> Vec<&'static str> {
        FIELDS.iter().filter(|field| wanted(&field.kind_of())).map(|field| field.name()).collect()
    };
    assert_eq!(of_kind(|kind| matches!(kind, Kind::Identifier)), vec!["profile_id", "trace_id", "transaction_id"]);
    assert_eq!(of_kind(|kind| matches!(kind, Kind::Signed64)), vec!["received"]);
    assert_eq!(of_kind(|kind| matches!(kind, Kind::Unsigned32)), vec!["android_api_level", "retention_days"]);
    assert_eq!(of_kind(|kind| matches!(kind, Kind::Unsigned16)), vec!["partition"]);
    assert_eq!(
        of_kind(|kind| matches!(kind, Kind::Unsigned64)),
        vec!["duration_ns", "organization_id", "project_id", "offset"]
    );
    assert_eq!(of_kind(|kind| matches!(kind, Kind::Text)).len(), 13);
}

#[test]
fn limits_of_the_unsigned_kinds() {
    assert_eq!(Kind::Unsigned16.ceiling(), 65535);
    assert_eq!(Kind::Unsigned32.ceiling(), 4294967295);
    assert_eq!(Kind::Unsigned64.ceiling(), 18446744073709551615);
}

#[test]
fn stamp_replaces_the_position_and_nothing_else() {
    let metadata = KafkaMessageMetadata { partition: 9, offset: 1234, timestamp: instant(0) };
    assert_eq!(stamp(record(0, 0), &metadata), record(1234, 9));
    assert_eq!(stamp(record(77, 3), &metadata), record(1234, 9));
    assert_eq!(stamp(record(1234, 9), &metadata), record(1234, 9));
    let zero = KafkaMessageMetadata { partition: 0, offset: 0, timestamp: instant(0) };
    assert_eq!(stamp(record(77, 3), &zero), record(0, 0));
}

#[test]
fn package_wraps_one_row() {
    let batch = package(Ok(vec![b'{', b'}', b'\n']), Some(instant(4)));
    assert_eq!(
        batch,
        Ok(InsertBatch {
            rows: RowData { encoded_rows: vec![b'{', b'}', b'\n'], num_rows: 1 },
            origin_timestamp: Some(instant(4)),
            sentry_received_timestamp: None,
        })
    );
}

#[test]
fn package_keeps_an_absent_instant_absent() {
    let batch = package(Ok(Vec::new()), None).unwrap();
    assert_eq!(batch.rows, RowData { encoded_rows: Vec::new(), num_rows: 1 });
    assert_eq!(batch.origin_timestamp, None);
    assert_eq!(batch.sentry_received_timestamp, None);
}

#[test]
fn package_turns_a_refusal_into_an_encoding_error() {
    assert_eq!(
        package(Err("key must be a string".to_string()), Some(instant(4))),
        Err(ProcessError::EncodingError("key must be a string".to_string()))
    );
}
