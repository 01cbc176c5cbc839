use profile_ingest::decoder::{decode, decode_document};
use profile_ingest::document::{find, Document, RawValue};
use profile_ingest::error::{ProcessError, SchemaFault};
use profile_ingest::field::Field;
use profile_ingest::identifier::checked_identifier;
use profile_ingest::record::ProfileMessage;

fn text(value: &str) -> RawValue {
    RawValue::Text(value.to_string())
}

fn unsigned(value: u64) -> RawValue {
    RawValue::Number {
        unsigned: Some(value),
        signed: if value <= i64::MAX as u64 { Some(value as i64) } else { None },
    }
}

fn negative(value: i64) -> RawValue {
    RawValue::Number { unsigned: None, signed: Some(value) }
}

fn fraction() -> RawValue {
    RawValue::Number { unsigned: None, signed: None }
}

/// The members of a payload that gives every required field and nothing else.
fn required_members() -> Vec<(String, RawValue)> {
    vec![
        ("version_name".to_string(), text("v1")),
        ("version_code".to_string(), text("7")),
        ("transaction_name".to_string(), text("checkout")),
        ("transaction_id".to_string(), text("00000000-0000-0000-0000-000000000003")),
        ("trace_id".to_string(), text("00000000000000000000000000000002")),
        ("retention_days".to_string(), unsigned(90)),
        ("received".to_string(), negative(-5)),
        ("project_id".to_string(), unsigned(11)),
        ("profile_id".to_string(), text("ffffffff-ffff-ffff-ffff-ffffffffffff")),
        ("platform".to_string(), text("cocoa")),
        ("organization_id".to_string(), unsigned(10)),
        ("duration_ns".to_string(), unsigned(12)),
        ("device_os_version".to_string(), text("17.1")),
        ("device_os_name".to_string(), text("iOS")),
        ("device_model".to_string(), text("iPhone15,2")),
        ("device_manufacturer".to_string(), text("Apple")),
        ("device_locale".to_string(), text("en_US")),
    ]
}

fn required_record() -> ProfileMessage {
    ProfileMessage {
        android_api_level: None,
        architecture: None,
        device_classification: String::new(),
        device_locale: "en_US".to_string(),
        device_manufacturer: "Apple".to_string(),
        device_model: "iPhone15,2".to_string(),
        device_os_build_number: None,
        device_os_name: "iOS".to_string(),
        device_os_version: "17.1".to_string(),
        duration_ns: 12,
        environment: None,
        organization_id: 10,
        platform: "cocoa".to_string(),
        profile_id: u128::MAX,
        project_id: 11,
        received: -5,
        retention_days: 90,
        trace_id: 2,
        transaction_id: 3,
        transaction_name: "checkout".to_string(),
        version_code: "7".to_string(),
        version_name: "v1".to_string(),
        offset: 0,
        partition: 0,
    }
}

fn with(name: &str, value: RawValue) -> Document {
    let mut members: Vec<(String, RawValue)> =
        required_members().into_iter().filter(|member| member.0 != name).collect();
    members.push((name.to_string(), value));
    Document::Record(members)
}

fn without(name: &str) -> Document {
    Document::Record(required_members().into_iter().filter(|member| member.0 != name).collect())
}

#[test]
fn required_fields_alone_decode_with_defaults() {
    let record = decode_document(&Document::Record(required_members())).unwrap();
    assert_eq!(record, required_record());
}

#[test]
fn order_of_the_members_does_not_matter() {
    let mut members = required_members();
    members.reverse();
    assert_eq!(decode_document(&Document::Record(members)), Ok(required_record()));
}

#[test]
fn optional_fields_are_taken_when_given() {
    let mut members = required_members();
    members.push(("android_api_level".to_string(), unsigned(34)));
    members.push(("architecture".to_string(), text("arm64")));
    members.push(("device_classification".to_string(), text("low")));
    members.push(("device_os_build_number".to_string(), text("21B74")));
    members.push(("environment".to_string(), text("staging")));
    let mut expected = required_record();
    expected.android_api_level = Some(34);
    expected.architecture = Some("arm64".to_string());
    expected.device_classification = "low".to_string();
    expected.device_os_build_number = Some("21B74".to_string());
    expected.environment = Some("staging".to_string());
    assert_eq!(decode_document(&Document::Record(members)), Ok(expected));
}

#[test]
fn optional_fields_given_as_null_count_as_left_out() {
    let mut members = required_members();
    members.push(("android_api_level".to_string(), RawValue::Null));
    members.push(("architecture".to_string(), RawValue::Null));
    members.push(("device_classification".to_string(), RawValue::Null));
    members.push(("device_os_build_number".to_string(), RawValue::Null));
    members.push(("environment".to_string(), RawValue::Null));
    assert_eq!(decode_document(&Document::Record(members)), Ok(required_record()));
}

#[test]
fn position_of_the_payload_is_decoded() {
    let mut members = required_members();
    members.push(("offset".to_string(), unsigned(u64::MAX)));
    members.push(("partition".to_string(), unsigned(65535)));
    let mut expected = required_record();
    expected.offset = u64::MAX;
    expected.partition = 65535;
    assert_eq!(decode_document(&Document::Record(members)), Ok(expected));
}

#[test]
fn position_of_the_payload_must_be_of_its_kind() {
    assert_eq!(decode_document(&with("offset", RawValue::Null)), Err(SchemaFault::WrongType(Field::Offset)));
    assert_eq!(decode_document(&with("offset", negative(-1))), Err(SchemaFault::WrongType(Field::Offset)));
    assert_eq!(decode_document(&with("partition", unsigned(65536))), Err(SchemaFault::WrongType(Field::Partition)));
    assert_eq!(decode_document(&with("partition", text("0"))), Err(SchemaFault::WrongType(Field::Partition)));
}

#[test]
fn document_that_is_no_object_is_refused() {
    assert_eq!(decode_document(&Document::NotARecord), Err(SchemaFault::NotARecord));
}

#[test]
fn object_without_members_misses_the_device_locale() {
    assert_eq!(decode_document(&Document::Record(Vec::new())), Err(SchemaFault::MissingField(Field::DeviceLocale)));
}

#[test]
fn missing_required_field_is_named() {
    assert_eq!(decode_document(&without("received")), Err(SchemaFault::MissingField(Field::Received)));
    assert_eq!(decode_document(&without("version_name")), Err(SchemaFault::MissingField(Field::VersionName)));
    assert_eq!(decode_document(&without("profile_id")), Err(SchemaFault::MissingField(Field::ProfileId)));
}

#[test]
fn value_of_another_kind_is_named() {
    assert_eq!(decode_document(&with("platform", unsigned(1))), Err(SchemaFault::WrongType(Field::Platform)));
    assert_eq!(decode_document(&with("platform", RawValue::Other)), Err(SchemaFault::WrongType(Field::Platform)));
    assert_eq!(decode_document(&with("platform", RawValue::Null)), Err(SchemaFault::WrongType(Field::Platform)));
    assert_eq!(decode_document(&with("duration_ns", text("12"))), Err(SchemaFault::WrongType(Field::DurationNs)));
    assert_eq!(decode_document(&with("duration_ns", fraction())), Err(SchemaFault::WrongType(Field::DurationNs)));
    assert_eq!(decode_document(&with("duration_ns", negative(-12))), Err(SchemaFault::WrongType(Field::DurationNs)));
    assert_eq!(decode_document(&with("received", fraction())), Err(SchemaFault::WrongType(Field::Received)));
    assert_eq!(decode_document(&with("received", unsigned(u64::MAX))), Err(SchemaFault::WrongType(Field::Received)));
    assert_eq!(decode_document(&with("trace_id", unsigned(2))), Err(SchemaFault::WrongType(Field::TraceId)));
    assert_eq!(decode_document(&with("retention_days", unsigned(1 << 32))), Err(SchemaFault::WrongType(Field::RetentionDays)));
    assert_eq!(decode_document(&with("android_api_level", unsigned(1 << 32))), Err(SchemaFault::WrongType(Field::AndroidApiLevel)));
    assert_eq!(decode_document(&with("environment", RawValue::Other)), Err(SchemaFault::WrongType(Field::Environment)));
}

#[test]
fn numbers_at_their_limits_are_taken() {
    let record = decode_document(&with("retention_days", unsigned(u32::MAX as u64))).unwrap();
    assert_eq!(record.retention_days, u32::MAX);
    let record = decode_document(&with("received", negative(i64::MIN))).unwrap();
    assert_eq!(record.received, i64::MIN);
    let record = decode_document(&with("received", unsigned(i64::MAX as u64))).unwrap();
    assert_eq!(record.received, i64::MAX);
    let record = decode_document(&with("organization_id", unsigned(u64::MAX))).unwrap();
    assert_eq!(record.organization_id, u64::MAX);
}

#[test]
fn string_that_spells_no_identifier_is_named() {
    assert_eq!(decode_document(&with("trace_id", text("zz"))), Err(SchemaFault::InvalidIdentifier(Field::TraceId)));
    assert_eq!(
        decode_document(&with("transaction_id", text("00000000-0000-0000-0000_000000000003"))),
        Err(SchemaFault::InvalidIdentifier(Field::TransactionId))
    );
}

#[test]
fn earlier_field_wins_among_several_faults() {
    let mut members = required_members();
    members.retain(|member| member.0 != "version_name" && member.0 != "device_model");
    members.push(("architecture".to_string(), unsigned(64)));
    assert_eq!(decode_document(&Document::Record(members)), Err(SchemaFault::WrongType(Field::Architecture)));
    let mut members = required_members();
    members.retain(|member| member.0 != "version_name" && member.0 != "device_model");
    assert_eq!(decode_document(&Document::Record(members)), Err(SchemaFault::MissingField(Field::DeviceModel)));
    let mut members = required_members();
    members.push(("partition".to_string(), RawValue::Other));
    members.push(("offset".to_string(), RawValue::Other));
    assert_eq!(decode_document(&Document::Record(members)), Err(SchemaFault::WrongType(Field::Offset)));
}

#[test]
fn members_outside_the_schema_are_passed_over() {
    let mut members = required_members();
    members.insert(0, ("device_Locale".to_string(), unsigned(1)));
    members.push(("sdk".to_string(), RawValue::Other));
    members.push(("".to_string(), RawValue::Null));
    assert_eq!(decode_document(&Document::Record(members)), Ok(required_record()));
}

#[test]
fn first_member_of_a_name_is_the_one_found() {
    let members = vec![
        ("a".to_string(), unsigned(1)),
        ("b".to_string(), text("x")),
        ("a".to_string(), unsigned(2)),
    ];
    assert_eq!(find(&members, "a"), Some(&unsigned(1)));
    assert_eq!(find(&members, "b"), Some(&text("x")));
    assert_eq!(find(&members, "c"), None);
    assert_eq!(find(&members, ""), None);
    assert_eq!(find(&Vec::new(), "a"), None);
}

#[test]
fn checked_identifier_reports_the_field() {
    assert_eq!(checked_identifier(Field::TraceId, Some(9)), Ok(9));
    assert_eq!(checked_identifier(Field::TraceId, None), Err(SchemaFault::InvalidIdentifier(Field::TraceId)));
}

#[test]
fn decode_reads_json_text() {
    let payload = br#"{
        "device_locale": "en_US", "device_manufacturer": "Apple", "device_model": "iPhone15,2",
        "device_os_name": "iOS", "device_os_version": "17.1", "duration_ns": 12,
        "organization_id": 10, "platform": "cocoa",
        "profile_id": "ffffffff-ffff-ffff-ffff-ffffffffffff", "project_id": 11, "received": -5,
        "retention_days": 90, "trace_id": "00000000000000000000000000000002",
        "transaction_id": "00000000-0000-0000-0000-000000000003",
        "transaction_name": "checkout", "version_code": "7", "version_name": "v1"
    }"#;
    assert_eq!(decode(Some(payload.as_slice())), Ok(required_record()));
}

#[test]
fn decode_keeps_what_the_payload_says_of_its_position() {
    let payload = br#"{
        "device_locale": "en_US", "device_manufacturer": "Apple", "device_model": "iPhone15,2",
        "device_os_name": "iOS", "device_os_version": "17.1", "duration_ns": 12,
        "organization_id": 10, "platform": "cocoa",
        "profile_id": "ffffffff-ffff-ffff-ffff-ffffffffffff", "project_id": 11, "received": -5,
        "retention_days": 90, "trace_id": "00000000000000000000000000000002",
        "transaction_id": "00000000-0000-0000-0000-000000000003",
        "transaction_name": "checkout", "version_code": "7", "version_name": "v1",
        "offset": 5, "partition": 6
    }"#;
    let record = decode(Some(payload.as_slice())).unwrap();
    assert_eq!((record.offset, record.partition), (5, 6));
}

#[test]
fn decode_reads_escapes_in_strings() {
    let payload = br#"{
        "device_locale": "en_US", "device_manufacturer": "A\"pple\n", "device_model": "iPhone15,2",
        "device_os_name": "iOS", "device_os_version": "17.1", "duration_ns": 12,
        "organization_id": 10, "platform": "cocoa",
        "profile_id": "ffffffff-ffff-ffff-ffff-ffffffffffff", "project_id": 11, "received": -5,
        "retention_days": 90, "trace_id": "00000000000000000000000000000002",
        "transaction_id": "00000000-0000-0000-0000-000000000003",
        "transaction_name": "caf\u00e9", "version_code": "7", "version_name": "v1"
    }"#;
    let record = decode(Some(payload.as_slice())).unwrap();
    assert_eq!(record.device_locale, "en_US");
    assert_eq!(record.device_manufacturer, "A\"pple\n");
    assert_eq!(record.transaction_name, "caf\u{e9}");
}

#[test]
fn decode_refuses_what_is_missing_or_malformed() {
    assert_eq!(decode(None), Err(ProcessError::MissingPayload));
    assert!(matches!(
        decode(Some(b"{\"device_locale\": }".as_slice())),
        Err(ProcessError::SchemaViolation(SchemaFault::Syntax(_)))
    ));
    assert_eq!(
        decode(Some(b"[]".as_slice())),
        Err(ProcessError::SchemaViolation(SchemaFault::NotARecord))
    );
    assert_eq!(
        decode(Some(b"{\"device_locale\": \"en_US\"}".as_slice())),
        Err(ProcessError::SchemaViolation(SchemaFault::MissingField(Field::DeviceManufacturer)))
    );
}
