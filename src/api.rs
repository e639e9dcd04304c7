use vstd::prelude::*;

use crate::block::{rows_view, Row};
use crate::pipeline::{kind_label, Outcome};

verus! {

/// The body of a query request: the SQL text to run.
#[derive(Clone, Debug)]
pub struct QueryRequest {
    pub sql: String,
}

/// The body of every answer: the rows, or an error message.
#[derive(Clone, Debug)]
pub enum Envelope {
    Result(Vec<Row>),
    Error(String),
}

/// Wraps the outcome of a request into its answer. Rows are kept as they
/// are; a failure becomes its classified message.
pub fn respond(outcome: Outcome) -> (r: Envelope)
    ensures
        outcome matches Outcome::Rows(rows) ==> (r matches Envelope::Result(out) && rows_view(
            out@,
        ) == rows_view(rows@)),
        outcome matches Outcome::Failure(err) ==> (r matches Envelope::Error(m) && m@
            == kind_label(err.kind) + ": "@ + err.detail@),
{
    match outcome {
        Outcome::Rows(rows) => Envelope::Result(rows),
        Outcome::Failure(err) => Envelope::Error(err.message()),
    }
}

} // verus!
