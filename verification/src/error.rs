//! The ways in which processing one message can fail.

use vstd::prelude::*;

use crate::field::Field;

verus! {

/// Why a payload does not fit the event schema.
#[derive(Clone, Debug, PartialEq, Eq)]
pub enum SchemaFault {
    /// The bytes are not a JSON text; the message says where and why.
    Syntax(String),
    /// The JSON text is not an object.
    NotARecord,
    /// A required field is not in the payload.
    MissingField(Field),
    /// A field holds a value of another kind than the schema asks for, a
    /// number outside the field's range among them.
    WrongType(Field),
    /// An identifier field holds a string that spells no identifier.
    InvalidIdentifier(Field),
}

/// The mathematical content of a [`SchemaFault`].
pub enum SchemaFaultView {
    Syntax(Seq<char>),
    NotARecord,
    MissingField(Field),
    WrongType(Field),
    InvalidIdentifier(Field),
}

impl View for SchemaFault {
    type V = SchemaFaultView;

    open spec fn view(&self) -> SchemaFaultView {
        match self {
            SchemaFault::Syntax(message) => SchemaFaultView::Syntax(message@),
            SchemaFault::NotARecord => SchemaFaultView::NotARecord,
            SchemaFault::MissingField(field) => SchemaFaultView::MissingField(*field),
            SchemaFault::WrongType(field) => SchemaFaultView::WrongType(*field),
            SchemaFault::InvalidIdentifier(field) => SchemaFaultView::InvalidIdentifier(*field),
        }
    }
}

/// Why a message yields no batch.
#[derive(Clone, Debug, PartialEq, Eq)]
pub enum ProcessError {
    /// The message carries no payload bytes.
    MissingPayload,
    /// The payload is not a record of the event schema.
    SchemaViolation(SchemaFault),
    /// The row encoder rejected the record; the message is the encoder's own.
    EncodingError(String),
}

/// The mathematical content of a [`ProcessError`].
pub enum ProcessErrorView {
    MissingPayload,
    SchemaViolation(SchemaFaultView),
    EncodingError(Seq<char>),
}

impl View for ProcessError {
    type V = ProcessErrorView;

    open spec fn view(&self) -> ProcessErrorView {
        match self {
            ProcessError::MissingPayload => ProcessErrorView::MissingPayload,
            ProcessError::SchemaViolation(fault) => ProcessErrorView::SchemaViolation(fault@),
            ProcessError::EncodingError(message) => ProcessErrorView::EncodingError(message@),
        }
    }
}

} // verus!
