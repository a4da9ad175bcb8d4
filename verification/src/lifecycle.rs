//! The life of the service: it sets up the schema once, and serves only if
//! that went well.

use vstd::prelude::*;
use crate::handler::{Response, ResponseView};

verus! {

/// Where the service stands.
#[derive(Clone, Copy, Debug, PartialEq, Eq, Structural)]
pub enum Lifecycle {
    /// The schema script has not been answered yet; no request is taken.
    Initializing,
    /// The schema is in place and requests are taken.
    Serving,
    /// The schema script failed; the process ends without taking a request.
    Aborted,
}

impl Lifecycle {
    /// Where the service stands once the schema script's handler has given
    /// `response`. Only the first response counts: a service that serves or
    /// has ended stays as it is.
    pub open spec fn after(self, response: ResponseView) -> Lifecycle {
        match self {
            Lifecycle::Initializing => if response is Initialized {
                Lifecycle::Serving
            } else {
                Lifecycle::Aborted
            },
            settled => settled,
        }
    }

    pub fn advance(self, response: &Response) -> (after: Lifecycle)
        ensures
            after == self.after(response@),
    {
        match self {
            Lifecycle::Initializing => match response {
                Response::Initialized => Lifecycle::Serving,
                _ => Lifecycle::Aborted,
            },
            settled => settled,
        }
    }

    /// Requests are taken while the service serves, and only then.
    pub fn accepts_requests(self) -> (accepts: bool)
        ensures
            accepts == (self == Lifecycle::Serving),
    {
        match self {
            Lifecycle::Serving => true,
            _ => false,
        }
    }
}

/// The way from initializing to serving is taken once and never back: a
/// service serves after a response exactly if it served before, or was
/// initializing and the schema script went well.
pub proof fn serving_is_one_way(lifecycle: Lifecycle, response: ResponseView)
    ensures
        lifecycle.after(response) == Lifecycle::Serving <==> lifecycle == Lifecycle::Serving || (
        lifecycle == Lifecycle::Initializing && response is Initialized),
        lifecycle.after(response) != Lifecycle::Initializing,
{
}

} // verus!
