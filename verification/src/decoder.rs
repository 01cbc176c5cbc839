//! The decoder: from payload bytes to a typed event record.
//!
//! A payload fits the schema when it is a JSON object in which every field of
//! the schema is free of fault. Members that the schema does not name are
//! passed over.

use vstd::prelude::*;

use crate::document::find;
use crate::document::member;
use crate::document::members_view;
use crate::document::Document;
use crate::document::DocumentView;
use crate::document::Members;
use crate::document::RawValue;
use crate::document::RawValueView;
use crate::error::ProcessError;
use crate::error::ProcessErrorView;
use crate::error::SchemaFault;
use crate::error::SchemaFaultView;
use crate::field::lemma_schema_order;
use crate::field::schema_len;
use crate::field::schema_order;
use crate::field::Field;
use crate::field::Kind;
use crate::field::Presence;
use crate::identifier::checked;
use crate::identifier::checked_identifier;
use crate::identifier::identifier_value;
use crate::identifier::parse_identifier;
use crate::json::json_document;
use crate::json::parse_json;
use crate::record::EventRecord;
use crate::record::ProfileMessage;

verus! {

/// What the payload gives for `field`, before the field's kind is asked for:
/// a value, nothing (where the field may be left out), or a fault.
pub open spec fn slot(members: Members, field: Field) -> Result<
    Option<RawValueView>,
    SchemaFaultView,
> {
    match member(members, field.wire_name()) {
        None => if field.presence() is Required {
            Err(SchemaFaultView::MissingField(field))
        } else {
            Ok(None)
        },
        Some(RawValueView::Null) => if field.presence() is Optional {
            Ok(None)
        } else {
            Err(SchemaFaultView::WrongType(field))
        },
        Some(value) => Ok(Some(value)),
    }
}

/// What the payload gives for `field` read as a string.
#[verifier::opaque]
pub open spec fn text_of(members: Members, field: Field) -> Result<
    Option<Seq<char>>,
    SchemaFaultView,
> {
    match slot(members, field) {
        Err(fault) => Err(fault),
        Ok(None) => Ok(None),
        Ok(Some(RawValueView::Text(text))) => Ok(Some(text)),
        Ok(Some(_)) => Err(SchemaFaultView::WrongType(field)),
    }
}

/// What the payload gives for `field` read as a whole number from 0 to the
/// limit of the field's kind.
#[verifier::opaque]
pub open spec fn unsigned_of(members: Members, field: Field) -> Result<
    Option<u64>,
    SchemaFaultView,
> {
    match slot(members, field) {
        Err(fault) => Err(fault),
        Ok(None) => Ok(None),
        Ok(Some(RawValueView::Number { unsigned: Some(n), signed })) => if n
            <= field.kind().limit() {
            Ok(Some(n))
        } else {
            Err(SchemaFaultView::WrongType(field))
        },
        Ok(Some(_)) => Err(SchemaFaultView::WrongType(field)),
    }
}

/// What the payload gives for `field` read as a signed 64-bit whole number.
#[verifier::opaque]
pub open spec fn signed_of(members: Members, field: Field) -> Result<
    Option<i64>,
    SchemaFaultView,
> {
    match slot(members, field) {
        Err(fault) => Err(fault),
        Ok(None) => Ok(None),
        Ok(Some(RawValueView::Number { unsigned, signed: Some(n) })) => Ok(Some(n)),
        Ok(Some(_)) => Err(SchemaFaultView::WrongType(field)),
    }
}

/// What the payload gives for `field` read as an identifier.
#[verifier::opaque]
pub open spec fn identifier_of(members: Members, field: Field) -> Result<
    Option<u128>,
    SchemaFaultView,
> {
    match text_of(members, field) {
        Err(fault) => Err(fault),
        Ok(None) => Ok(None),
        Ok(Some(text)) => match checked(field, identifier_value(text)) {
            Ok(id) => Ok(Some(id)),
            Err(fault) => Err(fault),
        },
    }
}

/// The fault of a reading, if it has one.
pub open spec fn fault<T>(reading: Result<Option<T>, SchemaFaultView>) -> Option<SchemaFaultView> {
    match reading {
        Ok(_) => None,
        Err(fault) => Some(fault),
    }
}

/// What a reading gives, if it gives anything.
pub open spec fn given<T>(reading: Result<Option<T>, SchemaFaultView>) -> Option<T> {
    match reading {
        Ok(value) => value,
        Err(_) => None,
    }
}

/// Why the payload does not fit the schema at `field`, or `None` where it
/// does.
pub open spec fn fault_of(members: Members, field: Field) -> Option<SchemaFaultView> {
    match field.kind() {
        Kind::Text => fault(text_of(members, field)),
        Kind::Identifier => fault(identifier_of(members, field)),
        Kind::Signed64 => fault(signed_of(members, field)),
        _ => fault(unsigned_of(members, field)),
    }
}

/// The fault of the first field, from position `from` of the schema order on,
/// at which the payload does not fit.
#[verifier::opaque]
pub open spec fn first_fault(members: Members, from: nat) -> Option<SchemaFaultView>
    decreases schema_order().len() - from,
{
    if from >= schema_order().len() {
        None
    } else {
        match fault_of(members, schema_order()[from as int]) {
            Some(fault) => Some(fault),
            None => first_fault(members, from + 1),
        }
    }
}

/// Whether `field` hands the search for the first fault on: once no field
/// before it is at fault, the first fault is its own, or lies behind it.
pub open spec fn moves_on(members: Members, field: Field) -> bool {
    first_fault(members, 0) == first_fault(members, field.position()) ==> first_fault(members, 0)
        == match fault_of(members, field) {
        Some(fault) => Some(fault),
        None => first_fault(members, field.position() + 1),
    }
}

/// The string that the record holds for `field`: the payload's, or the empty
/// string where the payload gives none.
pub open spec fn text_held(members: Members, field: Field) -> Seq<char> {
    match given(text_of(members, field)) {
        Some(text) => text,
        None => Seq::empty(),
    }
}

/// The number that the record holds for `field`: the payload's, or zero where
/// the payload gives none.
pub open spec fn unsigned_held(members: Members, field: Field) -> u64 {
    match given(unsigned_of(members, field)) {
        Some(n) => n,
        None => 0,
    }
}

/// The narrowing of a number that may be absent.
pub open spec fn narrowed(n: Option<u64>) -> Option<u32> {
    match n {
        Some(n) => Some(n as u32),
        None => None,
    }
}

/// The number that the record holds for the signed `field`.
pub open spec fn signed_held(members: Members, field: Field) -> i64 {
    match given(signed_of(members, field)) {
        Some(n) => n,
        None => 0,
    }
}

/// The identifier that the record holds for `field`.
pub open spec fn identifier_held(members: Members, field: Field) -> u128 {
    match given(identifier_of(members, field)) {
        Some(id) => id,
        None => 0,
    }
}

/// The record that a payload free of faults spells, field by field.
pub open spec fn record_of(members: Members) -> EventRecord {
    EventRecord {
        android_api_level: narrowed(given(unsigned_of(members, Field::AndroidApiLevel))),
        architecture: given(text_of(members, Field::Architecture)),
        device_classification: text_held(members, Field::DeviceClassification),
        device_locale: text_held(members, Field::DeviceLocale),
        device_manufacturer: text_held(members, Field::DeviceManufacturer),
        device_model: text_held(members, Field::DeviceModel),
        device_os_build_number: given(text_of(members, Field::DeviceOsBuildNumber)),
        device_os_name: text_held(members, Field::DeviceOsName),
        device_os_version: text_held(members, Field::DeviceOsVersion),
        duration_ns: unsigned_held(members, Field::DurationNs),
        environment: given(text_of(members, Field::Environment)),
        organization_id: unsigned_held(members, Field::OrganizationId),
        platform: text_held(members, Field::Platform),
        profile_id: identifier_held(members, Field::ProfileId),
        project_id: unsigned_held(members, Field::ProjectId),
        received: signed_held(members, Field::Received),
        retention_days: unsigned_held(members, Field::RetentionDays) as u32,
        trace_id: identifier_held(members, Field::TraceId),
        transaction_id: identifier_held(members, Field::TransactionId),
        transaction_name: text_held(members, Field::TransactionName),
        version_code: text_held(members, Field::VersionCode),
        version_name: text_held(members, Field::VersionName),
        offset: unsigned_held(members, Field::Offset),
        partition: unsigned_held(members, Field::Partition) as u16,
    }
}

/// What decoding a document gives: the record that it spells, or the first
/// fault in schema order.
pub open spec fn decoded(document: DocumentView) -> Result<EventRecord, SchemaFaultView> {
    match document {
        DocumentView::NotARecord => Err(SchemaFaultView::NotARecord),
        DocumentView::Record(members) => match first_fault(members, 0) {
            Some(fault) => Err(fault),
            None => Ok(record_of(members)),
        },
    }
}

/// Whether a payload fits the schema: no field is at fault.
pub open spec fn fits(members: Members) -> bool {
    forall|field: Field| fault_of(members, field) is None
}

/// Whether a value is of a kind: a string for a text or an identifier, and
/// for a number a whole number within the kind's range.
pub open spec fn suits(value: RawValueView, kind: Kind) -> bool {
    match kind {
        Kind::Text | Kind::Identifier => value is Text,
        Kind::Signed64 => value matches RawValueView::Number { signed: Some(_), .. },
        _ => value matches RawValueView::Number { unsigned: Some(n), .. } && n <= kind.limit(),
    }
}

/// Where no field from position `from` on is at fault, the search from there
/// finds none.
proof fn lemma_clean_tail(members: Members, from: nat)
    requires
        from <= schema_len(),
        forall|at: nat|
            from <= at < schema_len() ==> fault_of(members, #[trigger] schema_order()[at as int])
                is None,
    ensures
        first_fault(members, from) is None,
    decreases schema_len() - from,
{
    reveal(first_fault);
    lemma_schema_order(Field::Partition);
    if from < schema_len() {
        lemma_clean_tail(members, from + 1);
    }
}

/// Where the search from position `from` finds no fault, no field behind
/// that position is at fault.
proof fn lemma_searched(members: Members, from: nat, at: nat)
    requires
        from <= at < schema_len(),
        first_fault(members, from) is None,
    ensures
        fault_of(members, schema_order()[at as int]) is None,
    decreases at - from,
{
    reveal(first_fault);
    lemma_schema_order(Field::Partition);
    if from < at {
        lemma_searched(members, from + 1, at);
    }
}

/// An object decodes exactly when it fits the schema, and then to the record
/// that it spells.
pub proof fn lemma_decodes_iff_fits(members: Members)
    ensures
        decoded(DocumentView::Record(members)) is Ok <==> fits(members),
        fits(members) ==> decoded(DocumentView::Record(members)) == Ok::<
            EventRecord,
            SchemaFaultView,
        >(record_of(members)),
{
    if fits(members) {
        lemma_clean_tail(members, 0);
    }
    if first_fault(members, 0) is None {
        assert forall|field: Field| fault_of(members, field) is None by {
            lemma_schema_order(field);
            lemma_searched(members, 0, field.position());
        }
    }
}

/// A field that the payload leaves out is at fault exactly when it is
/// required, and its fault is that it is missing.
pub proof fn lemma_left_out(members: Members, field: Field)
    requires
        member(members, field.wire_name()) is None,
    ensures
        fault_of(members, field) == if field.presence() is Required {
            Some(SchemaFaultView::MissingField(field))
        } else {
            None
        },
{
    reveal(text_of);
    reveal(unsigned_of);
    reveal(signed_of);
    reveal(identifier_of);
}

/// A field given as null is at fault exactly when it is not optional, and
/// its fault is its type.
pub proof fn lemma_given_null(members: Members, field: Field)
    requires
        member(members, field.wire_name()) == Some(RawValueView::Null),
    ensures
        fault_of(members, field) == if field.presence() is Optional {
            None
        } else {
            Some(SchemaFaultView::WrongType(field))
        },
{
    reveal(text_of);
    reveal(unsigned_of);
    reveal(signed_of);
    reveal(identifier_of);
}

/// A field that holds a value of another kind than its own is at fault, and
/// its fault is its type.
pub proof fn lemma_wrong_type(members: Members, field: Field, value: RawValueView)
    requires
        member(members, field.wire_name()) == Some(value),
        !(value is Null),
        !suits(value, field.kind()),
    ensures
        fault_of(members, field) == Some(SchemaFaultView::WrongType(field)),
        !fits(members),
        decoded(DocumentView::Record(members)) is Err,
{
    reveal(text_of);
    reveal(unsigned_of);
    reveal(signed_of);
    reveal(identifier_of);
    lemma_decodes_iff_fits(members);
}

/// An identifier field whose string spells no identifier is at fault, and
/// its fault is the identifier.
pub proof fn lemma_invalid_identifier(members: Members, field: Field, text: Seq<char>)
    requires
        field.kind() is Identifier,
        member(members, field.wire_name()) == Some(RawValueView::Text(text)),
        identifier_value(text) is None,
    ensures
        fault_of(members, field) == Some(SchemaFaultView::InvalidIdentifier(field)),
        !fits(members),
        decoded(DocumentView::Record(members)) is Err,
{
    reveal(text_of);
    reveal(identifier_of);
    lemma_decodes_iff_fits(members);
}

/// A field that holds a value of its own kind is free of fault; for an
/// identifier field, once its string spells an identifier.
pub proof fn lemma_well_typed(members: Members, field: Field, value: RawValueView)
    requires
        member(members, field.wire_name()) == Some(value),
        suits(value, field.kind()),
        field.kind() is Identifier ==> (value matches RawValueView::Text(text)
            && identifier_value(text) is Some),
    ensures
        fault_of(members, field) is None,
{
    reveal(text_of);
    reveal(unsigned_of);
    reveal(signed_of);
    reveal(identifier_of);
}

/// The mathematical content of a reading of text.
pub open spec fn text_reading(r: Result<Option<String>, SchemaFault>) -> Result<
    Option<Seq<char>>,
    SchemaFaultView,
> {
    match r {
        Ok(Some(text)) => Ok(Some(text@)),
        Ok(None) => Ok(None),
        Err(fault) => Err(fault@),
    }
}

/// The mathematical content of a reading of a number.
pub open spec fn number_reading<T>(r: Result<Option<T>, SchemaFault>) -> Result<
    Option<T>,
    SchemaFaultView,
> {
    match r {
        Ok(value) => Ok(value),
        Err(fault) => Err(fault@),
    }
}

/// The mathematical content of the outcome of decoding.
pub open spec fn record_outcome(r: Result<ProfileMessage, SchemaFault>) -> Result<
    EventRecord,
    SchemaFaultView,
> {
    match r {
        Ok(record) => Ok(record@),
        Err(fault) => Err(fault@),
    }
}

/// Reading one field moves the search for the first fault on by one place:
/// once no field before `field` is at fault, the first fault is that of
/// `field`, or lies behind it.
proof fn lemma_step(members: Members, field: Field)
    ensures
        moves_on(members, field),
{
    reveal(first_fault);
    lemma_schema_order(field);
}

/// Behind the last field there is no fault left to find.
proof fn lemma_end(members: Members)
    ensures
        first_fault(members, schema_len()) is None,
{
    reveal(first_fault);
    lemma_schema_order(Field::Partition);
}

/// Looks `field` up in the payload and settles whether it is given.
fn read_slot<'a>(entries: &'a Vec<(String, RawValue)>, field: Field) -> (r: Result<
    Option<&'a RawValue>,
    SchemaFault,
>)
    ensures
        match r {
            Ok(Some(value)) => slot(members_view(entries@), field) == Ok::<
                Option<RawValueView>,
                SchemaFaultView,
            >(Some(value@)),
            Ok(None) => slot(members_view(entries@), field) == Ok::<
                Option<RawValueView>,
                SchemaFaultView,
            >(None),
            Err(fault) => slot(members_view(entries@), field) == Err::<
                Option<RawValueView>,
                SchemaFaultView,
            >(fault@),
        },
{
    match find(entries, field.name()) {
        None => match field.presence_of() {
            Presence::Required => Err(SchemaFault::MissingField(field)),
            _ => Ok(None),
        },
        Some(RawValue::Null) => match field.presence_of() {
            Presence::Optional => Ok(None),
            _ => Err(SchemaFault::WrongType(field)),
        },
        Some(value) => Ok(Some(value)),
    }
}

/// Reads `field` as a string.
fn read_text(entries: &Vec<(String, RawValue)>, field: Field) -> (r: Result<
    Option<String>,
    SchemaFault,
>)
    ensures
        text_reading(r) == text_of(members_view(entries@), field),
        moves_on(members_view(entries@), field),
{
    reveal(text_of);
    proof {
        lemma_step(members_view(entries@), field);
    }
    match read_slot(entries, field)? {
        None => Ok(None),
        Some(RawValue::Text(text)) => Ok(Some(text.clone())),
        Some(_) => Err(SchemaFault::WrongType(field)),
    }
}

/// Reads `field` as a whole number from 0 to the limit of its kind.
fn read_unsigned(entries: &Vec<(String, RawValue)>, field: Field) -> (r: Result<
    Option<u64>,
    SchemaFault,
>)
    ensures
        number_reading(r) == unsigned_of(members_view(entries@), field),
        r matches Ok(Some(n)) ==> n <= field.kind().limit(),
        moves_on(members_view(entries@), field),
{
    reveal(unsigned_of);
    proof {
        lemma_step(members_view(entries@), field);
    }
    match read_slot(entries, field)? {
        None => Ok(None),
        Some(RawValue::Number { unsigned: Some(n), signed: _ }) => {
            if *n <= field.kind_of().ceiling() {
                Ok(Some(*n))
            } else {
                Err(SchemaFault::WrongType(field))
            }
        },
        Some(_) => Err(SchemaFault::WrongType(field)),
    }
}

/// Reads `field` as a signed 64-bit whole number.
fn read_signed(entries: &Vec<(String, RawValue)>, field: Field) -> (r: Result<
    Option<i64>,
    SchemaFault,
>)
    ensures
        number_reading(r) == signed_of(members_view(entries@), field),
        moves_on(members_view(entries@), field),
{
    reveal(signed_of);
    proof {
        lemma_step(members_view(entries@), field);
    }
    match read_slot(entries, field)? {
        None => Ok(None),
        Some(RawValue::Number { unsigned: _, signed: Some(n) }) => Ok(Some(*n)),
        Some(_) => Err(SchemaFault::WrongType(field)),
    }
}

/// Reads `field` as an identifier.
fn read_identifier(entries: &Vec<(String, RawValue)>, field: Field) -> (r: Result<
    Option<u128>,
    SchemaFault,
>)
    ensures
        number_reading(r) == identifier_of(members_view(entries@), field),
        moves_on(members_view(entries@), field),
{
    reveal(identifier_of);
    match read_text(entries, field)? {
        None => Ok(None),
        Some(text) => {
            let id = checked_identifier(field, parse_identifier(text.as_str()))?;
            Ok(Some(id))
        },
    }
}

/// The string of a reading, or the empty string where it gives none.
fn text_or_empty(reading: Option<String>) -> (r: String)
    ensures
        r@ == match reading {
            Some(text) => text@,
            None => Seq::<char>::empty(),
        },
{
    match reading {
        Some(text) => text,
        None => String::new(),
    }
}

/// Narrows a number that lies within 32 bits.
fn narrow(n: Option<u64>) -> (r: Option<u32>)
    requires
        n matches Some(n) ==> n <= 0xffff_ffff,
    ensures
        r == narrowed(n),
{
    match n {
        Some(n) => Some(n as u32),
        None => None,
    }
}

/// Decodes a parsed payload against the event schema.
///
/// The fields are read in schema order; the first that is at fault ends the
/// decoding with that fault. Where none is, the record holds what the payload
/// gives for each field, and for a field that it leaves out no value, the
/// empty string for the device classification, and zero for the offset and
/// the partition.
pub fn decode_document(document: &Document) -> (r: Result<ProfileMessage, SchemaFault>)
    ensures
        record_outcome(r) == decoded(document@),
{
    let entries = match document {
        Document::Record(entries) => entries,
        Document::NotARecord => {
            return Err(SchemaFault::NotARecord);
        },
    };
    let ghost members = members_view(entries@);
    let android_api_level = read_unsigned(entries, Field::AndroidApiLevel)?;
    let architecture = read_text(entries, Field::Architecture)?;
    let device_classification = read_text(entries, Field::DeviceClassification)?;
    let device_locale = read_text(entries, Field::DeviceLocale)?;
    let device_manufacturer = read_text(entries, Field::DeviceManufacturer)?;
    let device_model = read_text(entries, Field::DeviceModel)?;
    let device_os_build_number = read_text(entries, Field::DeviceOsBuildNumber)?;
    let device_os_name = read_text(entries, Field::DeviceOsName)?;
    let device_os_version = read_text(entries, Field::DeviceOsVersion)?;
    let duration_ns = read_unsigned(entries, Field::DurationNs)?;
    let environment = read_text(entries, Field::Environment)?;
    let organization_id = read_unsigned(entries, Field::OrganizationId)?;
    let platform = read_text(entries, Field::Platform)?;
    let profile_id = read_identifier(entries, Field::ProfileId)?;
    let project_id = read_unsigned(entries, Field::ProjectId)?;
    let received = read_signed(entries, Field::Received)?;
    let retention_days = read_unsigned(entries, Field::RetentionDays)?;
    let trace_id = read_identifier(entries, Field::TraceId)?;
    let transaction_id = read_identifier(entries, Field::TransactionId)?;
    let transaction_name = read_text(entries, Field::TransactionName)?;
    let version_code = read_text(entries, Field::VersionCode)?;
    let version_name = read_text(entries, Field::VersionName)?;
    let offset = read_unsigned(entries, Field::Offset)?;
    let partition = read_unsigned(entries, Field::Partition)?;
    proof {
        lemma_end(members);
    }
    let record = ProfileMessage {
        android_api_level: narrow(android_api_level),
        architecture,
        device_classification: text_or_empty(device_classification),
        device_locale: text_or_empty(device_locale),
        device_manufacturer: text_or_empty(device_manufacturer),
        device_model: text_or_empty(device_model),
        device_os_build_number,
        device_os_name: text_or_empty(device_os_name),
        device_os_version: text_or_empty(device_os_version),
        duration_ns: duration_ns.unwrap_or(0),
        environment,
        organization_id: organization_id.unwrap_or(0),
        platform: text_or_empty(platform),
        profile_id: profile_id.unwrap_or(0),
        project_id: project_id.unwrap_or(0),
        received: received.unwrap_or(0),
        retention_days: retention_days.unwrap_or(0) as u32,
        trace_id: trace_id.unwrap_or(0),
        transaction_id: transaction_id.unwrap_or(0),
        transaction_name: text_or_empty(transaction_name),
        version_code: text_or_empty(version_code),
        version_name: text_or_empty(version_name),
        offset: offset.unwrap_or(0),
        partition: partition.unwrap_or(0) as u16,
    };
    proof {
        let spelled = record_of(members);
        assert(record@.android_api_level == spelled.android_api_level);
        assert(record@.architecture == spelled.architecture);
        assert(record@.device_classification == spelled.device_classification);
        assert(record@.device_locale == spelled.device_locale);
        assert(record@.device_manufacturer == spelled.device_manufacturer);
        assert(record@.device_model == spelled.device_model);
        assert(record@.device_os_build_number == spelled.device_os_build_number);
        assert(record@.device_os_name == spelled.device_os_name);
        assert(record@.device_os_version == spelled.device_os_version);
        assert(record@.duration_ns == spelled.duration_ns);
        assert(record@.environment == spelled.environment);
        assert(record@.organization_id == spelled.organization_id);
        assert(record@.platform == spelled.platform);
        assert(record@.profile_id == spelled.profile_id);
        assert(record@.project_id == spelled.project_id);
        assert(record@.received == spelled.received);
        assert(record@.retention_days == spelled.retention_days);
        assert(record@.trace_id == spelled.trace_id);
        assert(record@.transaction_id == spelled.transaction_id);
        assert(record@.transaction_name == spelled.transaction_name);
        assert(record@.version_code == spelled.version_code);
        assert(record@.version_name == spelled.version_name);
        assert(record@.offset == spelled.offset);
        assert(record@.partition == spelled.partition);
    }
    Ok(record)
}

/// The bytes of a payload, where the message carries one.
pub open spec fn payload_view(payload: Option<&[u8]>) -> Option<Seq<u8>> {
    match payload {
        Some(bytes) => Some(bytes@),
        None => None,
    }
}

/// What decoding a payload gives: the record that its JSON text spells, or
/// why there is none.
pub open spec fn decoded_payload(payload: Option<Seq<u8>>) -> Result<EventRecord, ProcessErrorView> {
    match payload {
        None => Err(ProcessErrorView::MissingPayload),
        Some(bytes) => match json_document(bytes) {
            Err(message) => Err(
                ProcessErrorView::SchemaViolation(SchemaFaultView::Syntax(message)),
            ),
            Ok(document) => match decoded(document) {
                Err(fault) => Err(ProcessErrorView::SchemaViolation(fault)),
                Ok(record) => Ok(record),
            },
        },
    }
}

/// The mathematical content of the outcome of decoding a payload.
pub open spec fn decode_outcome(r: Result<ProfileMessage, ProcessError>) -> Result<
    EventRecord,
    ProcessErrorView,
> {
    match r {
        Ok(record) => Ok(record@),
        Err(error) => Err(error@),
    }
}

/// Decodes the payload of a message into a typed record.
///
/// A message without payload bytes fails with `MissingPayload`. Bytes that
/// are not JSON text, or whose JSON text does not fit the event schema, fail
/// with `SchemaViolation` and the fault found.
pub fn decode(payload: Option<&[u8]>) -> (r: Result<ProfileMessage, ProcessError>)
    ensures
        decode_outcome(r) == decoded_payload(payload_view(payload)),
{
    let bytes = match payload {
        Some(bytes) => bytes,
        None => {
            return Err(ProcessError::MissingPayload);
        },
    };
    let document = match parse_json(bytes) {
        Ok(document) => document,
        Err(message) => {
            return Err(ProcessError::SchemaViolation(SchemaFault::Syntax(message)));
        },
    };
    match decode_document(&document) {
        Ok(record) => Ok(record),
        Err(fault) => Err(ProcessError::SchemaViolation(fault)),
    }
}

} // verus!
