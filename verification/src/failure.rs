//! Failures of the pool and of the database, turned into the events that a
//! handler takes in.

use vstd::prelude::*;
use crate::handler::{Event, EventView};

verus! {

/// The error type of `tokio_postgres`, carried through as it is.
#[verifier::external_type_specification]
#[verifier::external_body]
pub struct ExPostgresError(tokio_postgres::Error);

/// The error type of `bb8`, carried through as it is.
#[verifier::external_type_specification]
#[verifier::external_body]
#[verifier::reject_recursive_types(E)]
pub struct ExRunError<E>(bb8::RunError<E>);

/// The text that `bb8::RunError` writes of itself through `Display`.
pub uninterp spec fn pool_error_description(error: bb8::RunError<tokio_postgres::Error>) -> Seq<char>;

/// The text that `tokio_postgres::Error` writes of itself through `Display`.
pub uninterp spec fn statement_error_description(error: tokio_postgres::Error) -> Seq<char>;

/// Calls `to_string` on a `bb8::RunError`, which writes the error as its
/// `Display` impl does: a text that depends on the error alone. The text is
/// given a name and nothing more is claimed of it.
#[verifier::external_body]
fn pool_error_text(error: &bb8::RunError<tokio_postgres::Error>) -> (text: String)
    ensures
        text@ == pool_error_description(*error),
{
    error.to_string()
}

/// Calls `to_string` on a `tokio_postgres::Error`, which writes the error as
/// its `Display` impl does: a text that depends on the error alone. The text
/// is given a name and nothing more is claimed of it.
#[verifier::external_body]
fn statement_error_text(error: &tokio_postgres::Error) -> (text: String)
    ensures
        text@ == statement_error_description(*error),
{
    error.to_string()
}

/// The event for a connection that the pool could not give. Its description
/// is the error's own text.
pub fn acquire_failed(error: &bb8::RunError<tokio_postgres::Error>) -> (event: Event)
    ensures
        event@ == EventView::AcquireFailed(pool_error_description(*error)),
{
    Event::AcquireFailed(pool_error_text(error))
}

/// The event for a statement that the database could not run. Its
/// description is the error's own text.
pub fn statement_failed(error: &tokio_postgres::Error) -> (event: Event)
    ensures
        event@ == EventView::StatementFailed(statement_error_description(*error)),
{
    Event::StatementFailed(statement_error_text(error))
}

} // verus!
