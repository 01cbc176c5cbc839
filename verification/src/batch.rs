//! What the transport says of a message, and the batch handed on for
//! insertion.

use vstd::prelude::*;

use crate::error::ProcessError;
use crate::error::ProcessErrorView;
use crate::record::ProfileMessage;
use crate::timestamp::CalendarInstant;

verus! {

/// Where and when the transport holds a message.
#[derive(Clone, Copy, Debug, PartialEq, Eq)]
pub struct KafkaMessageMetadata {
    pub partition: u16,
    pub offset: u64,
    /// When the transport took the message in.
    pub timestamp: CalendarInstant,
}

/// Encoded rows, one after the other, and how many they are.
#[derive(Clone, Debug, PartialEq, Eq)]
pub struct RowData {
    pub encoded_rows: Vec<u8>,
    pub num_rows: usize,
}

/// The rows of one message, ready for insertion, with the instants that
/// belong to them.
#[derive(Clone, Debug, PartialEq, Eq)]
pub struct InsertBatch {
    pub rows: RowData,
    /// When the event was received by whoever produced the message.
    pub origin_timestamp: Option<CalendarInstant>,
    /// A second instant, which no profiling event carries.
    pub sentry_received_timestamp: Option<CalendarInstant>,
}

/// The mathematical content of an [`InsertBatch`].
pub struct InsertBatchView {
    pub encoded_rows: Seq<u8>,
    pub num_rows: nat,
    pub origin_timestamp: Option<CalendarInstant>,
    pub sentry_received_timestamp: Option<CalendarInstant>,
}

impl View for InsertBatch {
    type V = InsertBatchView;

    open spec fn view(&self) -> InsertBatchView {
        InsertBatchView {
            encoded_rows: self.rows.encoded_rows@,
            num_rows: self.rows.num_rows as nat,
            origin_timestamp: self.origin_timestamp,
            sentry_received_timestamp: self.sentry_received_timestamp,
        }
    }
}

/// The mathematical content of what a row encoder hands back: the bytes of
/// the row, or its message of refusal.
pub open spec fn encoding_view(encoded: Result<Vec<u8>, String>) -> Result<Seq<u8>, Seq<char>> {
    match encoded {
        Ok(bytes) => Ok(bytes@),
        Err(message) => Err(message@),
    }
}

/// The mathematical content of the outcome of packaging.
pub open spec fn batch_outcome(r: Result<InsertBatch, ProcessError>) -> Result<
    InsertBatchView,
    ProcessErrorView,
> {
    match r {
        Ok(batch) => Ok(batch@),
        Err(error) => Err(error@),
    }
}

/// The batch that one encoded row makes with the instant at which its event
/// was received, or the encoder's refusal as an error.
pub open spec fn packaged(
    encoded: Result<Seq<u8>, Seq<char>>,
    origin_timestamp: Option<CalendarInstant>,
) -> Result<InsertBatchView, ProcessErrorView> {
    match encoded {
        Ok(bytes) => Ok(
            InsertBatchView {
                encoded_rows: bytes,
                num_rows: 1,
                origin_timestamp,
                sentry_received_timestamp: None,
            },
        ),
        Err(message) => Err(ProcessErrorView::EncodingError(message)),
    }
}

/// Stamps a record with the position that the transport gives for its
/// message, whatever the record said of its position before.
pub fn stamp(record: ProfileMessage, metadata: &KafkaMessageMetadata) -> (r: ProfileMessage)
    ensures
        r@ == record@.at(metadata.offset, metadata.partition),
        r@.offset == metadata.offset,
        r@.partition == metadata.partition,
{
    ProfileMessage { offset: metadata.offset, partition: metadata.partition, ..record }
}

/// Wraps the encoded row of one record into a batch.
///
/// The batch holds exactly that row and the instant given; its second
/// instant is always absent. Where the encoder refused the record, there is
/// no batch, and the refusal comes back as `EncodingError`.
pub fn package(encoded: Result<Vec<u8>, String>, origin_timestamp: Option<CalendarInstant>) -> (r:
    Result<InsertBatch, ProcessError>)
    ensures
        batch_outcome(r) == packaged(encoding_view(encoded), origin_timestamp),
{
    match encoded {
        Ok(bytes) => Ok(
            InsertBatch {
                rows: RowData { encoded_rows: bytes, num_rows: 1 },
                origin_timestamp,
                sentry_received_timestamp: None,
            },
        ),
        Err(message) => Err(ProcessError::EncodingError(message)),
    }
}

} // verus!
