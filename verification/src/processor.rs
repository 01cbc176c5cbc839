//! The transform itself: one message in, one batch or one error out.

use vstd::prelude::*;

use crate::batch::batch_outcome;
use crate::batch::encoding_view;
use crate::batch::package;
use crate::batch::packaged;
use crate::batch::stamp;
use crate::batch::InsertBatch;
use crate::batch::InsertBatchView;
use crate::batch::KafkaMessageMetadata;
use crate::decoder::decode;
use crate::decoder::decoded_payload;
use crate::decoder::fits;
use crate::decoder::lemma_decodes_iff_fits;
use crate::decoder::payload_view;
use crate::decoder::record_of;
use crate::document::DocumentView;
use crate::document::Members;
use crate::error::ProcessError;
use crate::error::ProcessErrorView;
use crate::error::SchemaFaultView;
use crate::json::json_document;
use crate::record::EventRecord;
use crate::record::ProfileMessage;
use crate::timestamp::resolve_timestamp;
use crate::timestamp::resolves;
use crate::timestamp::CalendarInstant;

verus! {

/// The row of a message: the record that its payload spells, at the position
/// that the transport gives, or why there is none.
pub open spec fn stamped(payload: Option<Seq<u8>>, offset: u64, partition: u16) -> Result<
    EventRecord,
    ProcessErrorView,
> {
    match decoded_payload(payload) {
        Ok(record) => Ok(record.at(offset, partition)),
        Err(error) => Err(error),
    }
}

/// Whether `outcome` is what processing a message gives when `encoder`
/// encodes its row.
///
/// A message without a row fails as its payload does. A message with a row
/// succeeds or fails with the encoder: the batch holds the bytes that the
/// encoder gave for the row and the resolved instant of the event, and a
/// refusal of the encoder is the error.
pub open spec fn processed<E: Fn(&ProfileMessage) -> Result<Vec<u8>, String>>(
    payload: Option<Seq<u8>>,
    metadata: KafkaMessageMetadata,
    encoder: E,
    outcome: Result<InsertBatchView, ProcessErrorView>,
) -> bool {
    match stamped(payload, metadata.offset, metadata.partition) {
        Err(error) => outcome == Err::<InsertBatchView, ProcessErrorView>(error),
        Ok(row) => exists|
            record: ProfileMessage,
            encoded: Result<Vec<u8>, String>,
            origin: Option<CalendarInstant>,
        |
            {
                &&& record@ == row
                &&& #[trigger] call_ensures(encoder, (&record,), encoded)
                &&& #[trigger] resolves(row.received, origin)
                &&& outcome == packaged(encoding_view(encoded), origin)
            },
    }
}

/// Decodes the payload of a message, stamps the record with the transport's
/// position and resolves the instant at which the event was received.
///
/// This is all of the transform that comes before the row encoder. It fails
/// exactly as decoding the payload fails. An event whose received time has no
/// calendar instant still yields its row, with the instant absent.
pub fn prepare(payload: Option<&[u8]>, metadata: &KafkaMessageMetadata) -> (r: Result<
    (ProfileMessage, Option<CalendarInstant>),
    ProcessError,
>)
    ensures
        match r {
            Ok((row, origin)) => {
                &&& stamped(payload_view(payload), metadata.offset, metadata.partition) == Ok::<
                    EventRecord,
                    ProcessErrorView,
                >(row@)
                &&& row@.offset == metadata.offset
                &&& row@.partition == metadata.partition
                &&& resolves(row@.received, origin)
            },
            Err(error) => stamped(payload_view(payload), metadata.offset, metadata.partition)
                == Err::<EventRecord, ProcessErrorView>(error@),
        },
{
    let record = decode(payload)?;
    let row = stamp(record, metadata);
    let origin = resolve_timestamp(row.received);
    Ok((row, origin))
}

/// Processes one message: decodes its payload, stamps the record with the
/// transport's position, has `encoder` encode the row, and packages the
/// encoded row with the instant at which the event was received.
///
/// `encoder` must accept every record; it may still refuse one by returning
/// its message, which comes back as `EncodingError`.
pub fn process_message<E: Fn(&ProfileMessage) -> Result<Vec<u8>, String>>(
    payload: Option<&[u8]>,
    metadata: KafkaMessageMetadata,
    encoder: E,
) -> (r: Result<InsertBatch, ProcessError>)
    requires
        forall|record: &ProfileMessage| call_requires(encoder, (record,)),
    ensures
        processed(payload_view(payload), metadata, encoder, batch_outcome(r)),
{
    let (row, origin) = prepare(payload, &metadata)?;
    let encoded = encoder(&row);
    package(encoded, origin)
}

/// Whether `encoder` gives records of equal content equal answers.
pub open spec fn steady<E: Fn(&ProfileMessage) -> Result<Vec<u8>, String>>(encoder: E) -> bool {
    forall|
        first: ProfileMessage,
        second: ProfileMessage,
        left: Result<Vec<u8>, String>,
        right: Result<Vec<u8>, String>,
    |
        first@ == second@ && #[trigger] call_ensures(encoder, (&first,), left)
            && #[trigger] call_ensures(encoder, (&second,), right) ==> encoding_view(left)
            == encoding_view(right)
}

/// A message without payload bytes fails with `MissingPayload` and yields no
/// batch, and no other message fails so.
pub proof fn lemma_missing_payload<E: Fn(&ProfileMessage) -> Result<Vec<u8>, String>>(
    payload: Option<Seq<u8>>,
    metadata: KafkaMessageMetadata,
    encoder: E,
    outcome: Result<InsertBatchView, ProcessErrorView>,
)
    requires
        processed(payload, metadata, encoder, outcome),
    ensures
        payload is None <==> outcome == Err::<InsertBatchView, ProcessErrorView>(
            ProcessErrorView::MissingPayload,
        ),
{
}

/// A payload that is no JSON text fails with `SchemaViolation` and the
/// parser's message, and yields no batch.
pub proof fn lemma_malformed_payload<E: Fn(&ProfileMessage) -> Result<Vec<u8>, String>>(
    bytes: Seq<u8>,
    message: Seq<char>,
    metadata: KafkaMessageMetadata,
    encoder: E,
    outcome: Result<InsertBatchView, ProcessErrorView>,
)
    requires
        json_document(bytes) == Err::<DocumentView, Seq<char>>(message),
        processed(Some(bytes), metadata, encoder, outcome),
    ensures
        outcome == Err::<InsertBatchView, ProcessErrorView>(
            ProcessErrorView::SchemaViolation(SchemaFaultView::Syntax(message)),
        ),
{
}

/// A payload whose JSON text is an object that does not fit the schema, or is
/// no object at all, fails with `SchemaViolation` and yields no batch.
pub proof fn lemma_unfit_payload<E: Fn(&ProfileMessage) -> Result<Vec<u8>, String>>(
    bytes: Seq<u8>,
    document: DocumentView,
    metadata: KafkaMessageMetadata,
    encoder: E,
    outcome: Result<InsertBatchView, ProcessErrorView>,
)
    requires
        json_document(bytes) == Ok::<DocumentView, Seq<char>>(document),
        document matches DocumentView::Record(members) ==> !fits(members),
        processed(Some(bytes), metadata, encoder, outcome),
    ensures
        outcome matches Err(ProcessErrorView::SchemaViolation(_)),
{
    if let DocumentView::Record(members) = document {
        lemma_decodes_iff_fits(members);
    }
}

/// A payload whose JSON text is an object that fits the schema has a row, and
/// processing it fails only where the encoder refuses the row; the batch of a
/// success holds exactly one row.
pub proof fn lemma_fitting_payload<E: Fn(&ProfileMessage) -> Result<Vec<u8>, String>>(
    bytes: Seq<u8>,
    members: Members,
    metadata: KafkaMessageMetadata,
    encoder: E,
    outcome: Result<InsertBatchView, ProcessErrorView>,
)
    requires
        json_document(bytes) == Ok::<DocumentView, Seq<char>>(DocumentView::Record(members)),
        fits(members),
        processed(Some(bytes), metadata, encoder, outcome),
    ensures
        stamped(Some(bytes), metadata.offset, metadata.partition) == Ok::<
            EventRecord,
            ProcessErrorView,
        >(record_of(members).at(metadata.offset, metadata.partition)),
        outcome matches Ok(batch) ==> batch.num_rows == 1,
        outcome matches Err(error) ==> error is EncodingError,
{
    lemma_decodes_iff_fits(members);
}

/// The row of a message lies at the position that the transport gives,
/// whatever the payload says of offset and partition.
pub proof fn lemma_position(payload: Option<Seq<u8>>, offset: u64, partition: u16)
    ensures
        stamped(payload, offset, partition) matches Ok(row) ==> row.offset == offset
            && row.partition == partition,
{
}

/// Two records that differ at most in their position are the same record
/// once stamped.
pub proof fn lemma_stamp_forgets(first: EventRecord, second: EventRecord, offset: u64, partition: u16)
    requires
        first.at(0, 0) == second.at(0, 0),
    ensures
        first.at(offset, partition) == second.at(offset, partition),
{
}

/// The batch of a success carries the instant of the second at which the
/// event was received, with no sub-second part, exactly when that second is
/// representable, and no instant otherwise; its second instant is absent
/// either way. The received time never makes a message fail.
pub proof fn lemma_origin_timestamp<E: Fn(&ProfileMessage) -> Result<Vec<u8>, String>>(
    payload: Option<Seq<u8>>,
    metadata: KafkaMessageMetadata,
    encoder: E,
    outcome: Result<InsertBatchView, ProcessErrorView>,
)
    requires
        processed(payload, metadata, encoder, outcome),
    ensures
        outcome matches Ok(batch) ==> (stamped(payload, metadata.offset, metadata.partition)
            matches Ok(row) && resolves(row.received, batch.origin_timestamp)
            && batch.sentry_received_timestamp is None),
        outcome matches Err(error) ==> (error is EncodingError || stamped(
            payload,
            metadata.offset,
            metadata.partition,
        ) == Err::<EventRecord, ProcessErrorView>(error)),
{
}

/// With an encoder that gives equal records equal answers, processing is a
/// function of the payload bytes and the transport's position: any two
/// outcomes for the same bytes, offset and partition are the same.
pub proof fn lemma_deterministic<E: Fn(&ProfileMessage) -> Result<Vec<u8>, String>>(
    payload: Option<Seq<u8>>,
    metadata: KafkaMessageMetadata,
    other: KafkaMessageMetadata,
    encoder: E,
    first: Result<InsertBatchView, ProcessErrorView>,
    second: Result<InsertBatchView, ProcessErrorView>,
)
    requires
        steady(encoder),
        metadata.offset == other.offset,
        metadata.partition == other.partition,
        processed(payload, metadata, encoder, first),
        processed(payload, other, encoder, second),
    ensures
        first == second,
{
}

} // verus!
