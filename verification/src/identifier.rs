//! Identifiers: 128-bit values that a payload spells as text.

use vstd::prelude::*;

use crate::error::SchemaFault;
use crate::error::SchemaFaultView;
use crate::field::Field;

verus! {

/// The identifier that `text` spells, or `None` where it spells none.
pub uninterp spec fn identifier_value(text: Seq<char>) -> Option<u128>;

/// Calls `uuid::Uuid::parse_str` and takes the identifier as a number, its
/// first byte the most significant.
///
/// Trusted: the outcome is a function of the text alone. Nothing is claimed
/// of which texts spell an identifier.
#[verifier::external_body]
pub(crate) fn parse_identifier(text: &str) -> (r: Option<u128>)
    ensures
        r == identifier_value(text@),
{
    match uuid::Uuid::parse_str(text) {
        Ok(id) => Some(id.as_u128()),
        Err(_) => None,
    }
}

/// What an identifier field holds, given what its text spells.
pub open spec fn checked(field: Field, parsed: Option<u128>) -> Result<u128, SchemaFaultView> {
    match parsed {
        Some(id) => Ok(id),
        None => Err(SchemaFaultView::InvalidIdentifier(field)),
    }
}

/// Accepts the identifier that the text of `field` spells, or reports the
/// field where the text spells none.
pub fn checked_identifier(field: Field, parsed: Option<u128>) -> (r: Result<u128, SchemaFault>)
    ensures
        match r {
            Ok(id) => checked(field, parsed) == Ok::<u128, SchemaFaultView>(id),
            Err(fault) => checked(field, parsed) == Err::<u128, SchemaFaultView>(fault@),
        },
{
    match parsed {
        Some(id) => Ok(id),
        None => Err(SchemaFault::InvalidIdentifier(field)),
    }
}

} // verus!
