//! Answers to queries: documents of concepts and the generic documents that
//! they are handed out as.

pub mod concept_document;
pub mod json;
pub mod number;
pub mod round_trip;

use vstd::prelude::*;

verus! {

/// What a query does: read data, write data, or change the schema.
#[derive(Clone, Copy, Debug, PartialEq, Eq, Structural)]
pub enum QueryType {
    ReadQuery,
    WriteQuery,
    SchemaQuery,
}

} // verus!
