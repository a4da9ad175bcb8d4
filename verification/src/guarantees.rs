//! What holds of every handler, whatever the pool and the database do.

use vstd::prelude::*;
use crate::handler::{
    next, statement_of, ActionView, EventView, OperationView, ResponseView, Stage,
    StatementView, CREATE_SQL,
};
use crate::record::{CrabToBeView, CrabView};
use crate::response::Status;

verus! {

/// The row that the table holds for an insertion to which storage gave `id`.
pub open spec fn stored_row(statement: StatementView, id: i32) -> CrabView
    recommends
        statement is Insert,
{
    CrabView { id, name: statement->name, age: statement->age, height: statement->height }
}

/// No row has the identifier `id`.
pub open spec fn unseen(rows: Seq<CrabView>, id: i32) -> bool {
    forall|i: int| 0 <= i < rows.len() ==> (#[trigger] rows[i]).id != id
}

/// The crab of `payload` under the identifier `id`.
pub open spec fn crab_of(payload: CrabToBeView, id: i32) -> CrabView {
    CrabView { id, name: payload.name, age: payload.age, height: payload.height }
}

/// What a handler that lists answers to the rows of the table.
pub open spec fn listing(rows: Seq<CrabView>) -> (Stage, ActionView) {
    next(OperationView::List, Stage::Executing, EventView::Rows(rows))
}

/// A handler begins by asking the pool for a connection.
pub proof fn handler_begins_by_acquiring(operation: OperationView)
    ensures
        next(operation, Stage::Ready, EventView::Start) == (Stage::Acquiring, ActionView::Acquire),
{
}

/// A created crab is listed. The handler that creates hands storage the
/// payload's three fields, and where storage keeps them in a new row under an
/// identifier that no row had, the handler that lists then answers with every
/// earlier crab, unchanged, and with the new one under that identifier.
pub proof fn created_crab_is_listed(payload: CrabToBeView, before: Seq<CrabView>, id: i32)
    requires
        unseen(before, id),
    ensures
        ({
            let statement = statement_of(OperationView::Create(payload));
            let after = before.push(stored_row(statement, id));
            &&& next(OperationView::Create(payload), Stage::Acquiring, EventView::Acquired) == (
                Stage::Executing,
                ActionView::Execute(statement),
            )
            &&& statement is Insert
            &&& statement->sql == CREATE_SQL@
            &&& listing(after) == (
                Stage::Finished,
                ActionView::Finish {
                    release: true,
                    response: ResponseView::Listed(Status::Success, after),
                },
            )
            &&& after.contains(crab_of(payload, id))
            &&& after.len() == before.len() + 1
            &&& forall|i: int| 0 <= i < before.len() ==> after[i] == before[i] && after[i].id != id
        }),
{
    let statement = statement_of(OperationView::Create(payload));
    let after = before.push(stored_row(statement, id));
    assert(after[before.len() as int] == crab_of(payload, id));
}

/// Two created crabs are both listed, whichever of them storage took first,
/// each under its own identifier, where storage gave them two identifiers that
/// no row had.
pub proof fn two_created_crabs_are_listed(
    first: CrabToBeView,
    second: CrabToBeView,
    before: Seq<CrabView>,
    first_id: i32,
    second_id: i32,
    first_came_first: bool,
)
    requires
        unseen(before, first_id),
        unseen(before, second_id),
        first_id != second_id,
    ensures
        ({
            let one = stored_row(statement_of(OperationView::Create(first)), first_id);
            let other = stored_row(statement_of(OperationView::Create(second)), second_id);
            let after = if first_came_first {
                before.push(one).push(other)
            } else {
                before.push(other).push(one)
            };
            &&& listing(after).1 == ActionView::Finish {
                release: true,
                response: ResponseView::Listed(Status::Success, after),
            }
            &&& after.contains(crab_of(first, first_id))
            &&& after.contains(crab_of(second, second_id))
            &&& crab_of(first, first_id).id != crab_of(second, second_id).id
        }),
{
    let one = stored_row(statement_of(OperationView::Create(first)), first_id);
    let other = stored_row(statement_of(OperationView::Create(second)), second_id);
    let n = before.len() as int;
    if first_came_first {
        let after = before.push(one).push(other);
        assert(after[n] == crab_of(first, first_id));
        assert(after[n + 1] == crab_of(second, second_id));
    } else {
        let after = before.push(other).push(one);
        assert(after[n] == crab_of(second, second_id));
        assert(after[n + 1] == crab_of(first, first_id));
    }
}

/// A table without rows is listed as an empty sequence, with success.
pub proof fn empty_table_is_listed_as_empty()
    ensures
        listing(Seq::<CrabView>::empty()) == (
            Stage::Finished,
            ActionView::Finish {
                release: true,
                response: ResponseView::Listed(Status::Success, Seq::<CrabView>::empty()),
            },
        ),
{
}

/// Where the pool gives no connection, every handler answers with a
/// server-side failure that carries the pool's description, runs no
/// statement and has no connection to give back.
pub proof fn failed_acquisition_is_a_server_error(operation: OperationView, description: Seq<char>)
    ensures
        next(operation, Stage::Acquiring, EventView::AcquireFailed(description)) == (
            Stage::Finished,
            ActionView::Finish {
                release: false,
                response: ResponseView::Failed(Status::InternalServerError, description),
            },
        ),
        Status::InternalServerError.number() == 500,
{
}

/// Where the statement fails, every handler answers with a server-side
/// failure that carries the database's description, and gives the connection
/// back.
pub proof fn failed_statement_is_a_server_error(operation: OperationView, description: Seq<char>)
    ensures
        next(operation, Stage::Executing, EventView::StatementFailed(description)) == (
            Stage::Finished,
            ActionView::Finish {
                release: true,
                response: ResponseView::Failed(Status::InternalServerError, description),
            },
        ),
{
}

/// A handler runs a statement only on the connection that it was just given,
/// and the statement is its operation's own. So a request runs at most one
/// statement, and nothing is inserted but by a handler that creates.
pub proof fn one_statement_per_request(operation: OperationView, stage: Stage, event: EventView)
    requires
        next(operation, stage, event).1 is Execute,
    ensures
        stage == Stage::Acquiring,
        event == EventView::Acquired,
        next(operation, stage, event) == (
            Stage::Executing,
            ActionView::Execute(statement_of(operation)),
        ),
        statement_of(operation) is Insert <==> operation is Create,
{
}

/// A connection is held in the stage `Executing` and in no other, and every
/// way out of that stage gives it back: a handler that finishes says to
/// release exactly when it held one.
pub proof fn connection_is_released(operation: OperationView, stage: Stage, event: EventView)
    ensures
        ({
            let (after, action) = next(operation, stage, event);
            &&& action matches ActionView::Finish { release, .. } ==> release == (stage
                == Stage::Executing)
            &&& stage == Stage::Executing && after != Stage::Executing ==> action is Finish
            &&& stage != Stage::Executing && after == Stage::Executing ==> event
                == EventView::Acquired
        }),
{
}

/// A handler answers once: it is finished exactly when it says so, and a
/// finished handler stays finished and asks for nothing more.
pub proof fn handler_answers_once(operation: OperationView, stage: Stage, event: EventView)
    ensures
        ({
            let (after, action) = next(operation, stage, event);
            &&& stage != Stage::Finished ==> (after == Stage::Finished <==> action is Finish)
            &&& stage == Stage::Finished ==> after == Stage::Finished && action == ActionView::Wait
        }),
{
}

/// Each response has the status of its kind: a listing succeeds, a creation
/// is reported as created, and a failure is the server's.
pub proof fn responses_have_their_status(operation: OperationView, stage: Stage, event: EventView)
    ensures
        match next(operation, stage, event).1 {
            ActionView::Finish { response: ResponseView::Listed(status, _), .. } => status
                == Status::Success && operation is List,
            ActionView::Finish { response: ResponseView::Created(status), .. } => status
                == Status::Created && operation is Create,
            ActionView::Finish { response: ResponseView::Failed(status, _), .. } => status
                == Status::InternalServerError,
            ActionView::Finish { response: ResponseView::Initialized, .. } => operation is Init,
            _ => true,
        },
{
}

} // verus!
