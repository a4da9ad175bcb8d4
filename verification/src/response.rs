//! Response statuses, and the one shape that every failure takes.

use vstd::prelude::*;

verus! {

/// The statuses that the service answers with.
#[derive(Clone, Copy, Debug, PartialEq, Eq, Structural)]
pub enum Status {
    Success,
    Created,
    InternalServerError,
}

impl Status {
    /// The status as a number on the wire.
    pub open spec fn number(self) -> u16 {
        match self {
            Status::Success => 200,
            Status::Created => 201,
            Status::InternalServerError => 500,
        }
    }

    pub fn code(self) -> (code: u16)
        ensures
            code == self.number(),
    {
        match self {
            Status::Success => 200,
            Status::Created => 201,
            Status::InternalServerError => 500,
        }
    }
}

/// Every failure is reported as a server-side failure that carries the
/// failure's own description, unchanged.
pub fn internal_error(description: String) -> (failure: (Status, String))
    ensures
        failure.0 == Status::InternalServerError,
        failure.1@ == description@,
{
    (Status::InternalServerError, description)
}

} // verus!
