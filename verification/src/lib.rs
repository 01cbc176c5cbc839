//! Turns one raw application-profiling event, as delivered by a streaming
//! transport, into a validated row ready for bulk insertion.
//!
//! The transform is a pure function of the payload bytes and the transport's
//! positional metadata: decode the payload against the event schema, stamp the
//! record with the transport's offset and partition, resolve the calendar
//! instant at which the event was received, and package the encoded row.

pub mod batch;
pub mod decoder;
pub mod document;
pub mod error;
pub mod field;
pub mod identifier;
pub mod json;
pub mod processor;
pub mod record;
pub mod timestamp;

pub use crate::batch::package;
pub use crate::batch::stamp;
pub use crate::batch::InsertBatch;
pub use crate::batch::KafkaMessageMetadata;
pub use crate::batch::RowData;
pub use crate::decoder::decode;
pub use crate::decoder::decode_document;
pub use crate::error::ProcessError;
pub use crate::error::SchemaFault;
pub use crate::processor::prepare;
pub use crate::processor::process_message;
pub use crate::record::ProfileMessage;
pub use crate::timestamp::resolve_timestamp;
pub use crate::timestamp::CalendarInstant;
