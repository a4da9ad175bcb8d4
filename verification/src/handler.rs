//! The request handlers as state machines. A handler waits twice, once for a
//! connection from the pool and once for its one statement; what it does
//! between those waits is decided here. The caller performs each action and
//! hands back the event that answers it.

use vstd::prelude::*;
use crate::record::{crab_views, crabs_of_rows, row_views, Crab, CrabRow, CrabToBe, CrabToBeView, CrabView};
use crate::response::{internal_error, Status};

verus! {

/// The statement that lists every crab.
pub const LIST_SQL: &'static str = "SELECT * FROM crabs";

/// The statement that stores one crab; its three parameters are the name, the
/// age and the height, in this order.
pub const CREATE_SQL: &'static str = "INSERT INTO crabs (name, age, height) VALUES ($1, $2, $3)";

/// What a handler is there to do.
#[derive(Clone, Debug, PartialEq, Eq)]
pub enum Operation {
    /// Run the schema script, before any request is served.
    Init(String),
    /// List every crab.
    List,
    /// Store one crab.
    Create(CrabToBe),
}

pub enum OperationView {
    Init(Seq<char>),
    List,
    Create(CrabToBeView),
}

impl View for Operation {
    type V = OperationView;

    open spec fn view(&self) -> OperationView {
        match self {
            Operation::Init(script) => OperationView::Init(script@),
            Operation::List => OperationView::List,
            Operation::Create(payload) => OperationView::Create(payload@),
        }
    }
}

/// One statement for the database, with its parameters.
#[derive(Clone, Debug, PartialEq, Eq)]
pub enum Statement {
    /// A script of several statements, run as one batch.
    Batch(String),
    /// A query without parameters, which yields rows.
    Query(String),
    /// An insertion of one crab.
    Insert { sql: String, name: String, age: i16, height: u32 },
}

pub enum StatementView {
    Batch(Seq<char>),
    Query(Seq<char>),
    Insert { sql: Seq<char>, name: Seq<char>, age: i16, height: u32 },
}

impl View for Statement {
    type V = StatementView;

    open spec fn view(&self) -> StatementView {
        match self {
            Statement::Batch(script) => StatementView::Batch(script@),
            Statement::Query(sql) => StatementView::Query(sql@),
            Statement::Insert { sql, name, age, height } => StatementView::Insert {
                sql: sql@,
                name: name@,
                age: *age,
                height: *height,
            },
        }
    }
}

/// What a handler answers.
#[derive(Clone, Debug, PartialEq, Eq)]
pub enum Response {
    /// The schema is in place; there is no client to tell.
    Initialized,
    /// The crabs of the table, as the body of the response.
    Listed(Status, Vec<Crab>),
    /// The crab was stored; the response has no body.
    Created(Status),
    /// The request failed; the body is the failure's description.
    Failed(Status, String),
}

pub enum ResponseView {
    Initialized,
    Listed(Status, Seq<CrabView>),
    Created(Status),
    Failed(Status, Seq<char>),
}

impl View for Response {
    type V = ResponseView;

    open spec fn view(&self) -> ResponseView {
        match self {
            Response::Initialized => ResponseView::Initialized,
            Response::Listed(status, crabs) => ResponseView::Listed(*status, crab_views(crabs@)),
            Response::Created(status) => ResponseView::Created(*status),
            Response::Failed(status, description) => ResponseView::Failed(*status, description@),
        }
    }
}

/// What happened outside, as the answer to a handler's last action.
#[derive(Clone, Debug, PartialEq, Eq)]
pub enum Event {
    /// The request came in.
    Start,
    /// The pool gave a connection.
    Acquired,
    /// The pool gave none; the text describes why.
    AcquireFailed(String),
    /// The statement yielded these rows.
    Rows(Vec<CrabRow>),
    /// The statement ran and yielded no rows.
    Executed,
    /// The statement failed; the text describes why.
    StatementFailed(String),
}

pub enum EventView {
    Start,
    Acquired,
    AcquireFailed(Seq<char>),
    Rows(Seq<CrabView>),
    Executed,
    StatementFailed(Seq<char>),
}

impl View for Event {
    type V = EventView;

    open spec fn view(&self) -> EventView {
        match self {
            Event::Start => EventView::Start,
            Event::Acquired => EventView::Acquired,
            Event::AcquireFailed(description) => EventView::AcquireFailed(description@),
            Event::Rows(rows) => EventView::Rows(row_views(rows@)),
            Event::Executed => EventView::Executed,
            Event::StatementFailed(description) => EventView::StatementFailed(description@),
        }
    }
}

/// What a handler asks its caller to do next.
#[derive(Clone, Debug, PartialEq, Eq)]
pub enum Action {
    /// Ask the pool for a connection.
    Acquire,
    /// Run this statement on the connection.
    Execute(Statement),
    /// Give the connection back, if `release` says that one is held, and
    /// answer with the response.
    Finish { release: bool, response: Response },
    /// Nothing: the event did not answer the handler's last action.
    Wait,
}

pub enum ActionView {
    Acquire,
    Execute(StatementView),
    Finish { release: bool, response: ResponseView },
    Wait,
}

impl View for Action {
    type V = ActionView;

    open spec fn view(&self) -> ActionView {
        match self {
            Action::Acquire => ActionView::Acquire,
            Action::Execute(statement) => ActionView::Execute(statement@),
            Action::Finish { release, response } => ActionView::Finish {
                release: *release,
                response: response@,
            },
            Action::Wait => ActionView::Wait,
        }
    }
}

/// How far a handler has come.
#[derive(Clone, Copy, Debug, PartialEq, Eq, Structural)]
pub enum Stage {
    /// Nothing was asked for yet.
    Ready,
    /// Waiting for a connection.
    Acquiring,
    /// Holding a connection and waiting for the statement.
    Executing,
    /// The response was given.
    Finished,
}

/// The one statement that an operation runs.
pub open spec fn statement_of(operation: OperationView) -> StatementView {
    match operation {
        OperationView::Init(script) => StatementView::Batch(script),
        OperationView::List => StatementView::Query(LIST_SQL@),
        OperationView::Create(payload) => StatementView::Insert {
            sql: CREATE_SQL@,
            name: payload.name,
            age: payload.age,
            height: payload.height,
        },
    }
}

/// The response that is every failure's: a server-side failure with the
/// failure's description.
pub open spec fn failure_of(description: Seq<char>) -> ResponseView {
    ResponseView::Failed(Status::InternalServerError, description)
}

/// The response to an operation whose statement went well, if the event is
/// the one that such a statement ends with: rows for a listing, none for the
/// schema script and for an insertion.
pub open spec fn success_of(operation: OperationView, event: EventView) -> Option<ResponseView> {
    match (operation, event) {
        (OperationView::Init(_), EventView::Executed) => Some(ResponseView::Initialized),
        (OperationView::List, EventView::Rows(rows)) => Some(
            ResponseView::Listed(Status::Success, rows),
        ),
        (OperationView::Create(_), EventView::Executed) => Some(
            ResponseView::Created(Status::Created),
        ),
        _ => None,
    }
}

/// The stage that follows and the action that is asked for, when a handler
/// for `operation` in `stage` is handed `event`.
pub open spec fn next(operation: OperationView, stage: Stage, event: EventView) -> (
    Stage,
    ActionView,
) {
    match (stage, event) {
        (Stage::Ready, EventView::Start) => (Stage::Acquiring, ActionView::Acquire),
        (Stage::Acquiring, EventView::Acquired) => (
            Stage::Executing,
            ActionView::Execute(statement_of(operation)),
        ),
        (Stage::Acquiring, EventView::AcquireFailed(description)) => (
            Stage::Finished,
            ActionView::Finish { release: false, response: failure_of(description) },
        ),
        (Stage::Executing, EventView::StatementFailed(description)) => (
            Stage::Finished,
            ActionView::Finish { release: true, response: failure_of(description) },
        ),
        (Stage::Executing, answer) => match success_of(operation, answer) {
            Some(response) => (Stage::Finished, ActionView::Finish { release: true, response }),
            None => (stage, ActionView::Wait),
        },
        _ => (stage, ActionView::Wait),
    }
}

impl Operation {
    /// The one statement that this operation runs.
    pub fn statement(&self) -> (statement: Statement)
        ensures
            statement@ == statement_of(self@),
    {
        match self {
            Operation::Init(script) => Statement::Batch(script.clone()),
            Operation::List => Statement::Query(LIST_SQL.to_owned()),
            Operation::Create(payload) => Statement::Insert {
                sql: CREATE_SQL.to_owned(),
                name: payload.name.clone(),
                age: payload.age,
                height: payload.height,
            },
        }
    }

    /// The response to this operation when its statement ended with `event`,
    /// if `event` is what such a statement ends with.
    pub fn success(&self, event: Event) -> (response: Option<Response>)
        ensures
            response.is_some() == success_of(self@, event@).is_some(),
            response matches Some(given) ==> Some(given@) == success_of(self@, event@),
    {
        match self {
            Operation::Init(_) => match event {
                Event::Executed => Some(Response::Initialized),
                _ => None,
            },
            Operation::List => match event {
                Event::Rows(rows) => Some(Response::Listed(Status::Success, crabs_of_rows(rows))),
                _ => None,
            },
            Operation::Create(_) => match event {
                Event::Executed => Some(Response::Created(Status::Created)),
                _ => None,
            },
        }
    }
}

impl Response {
    /// The response to a request that failed with this description.
    pub fn failure(description: String) -> (response: Response)
        ensures
            response@ == failure_of(description@),
    {
        let (status, text) = internal_error(description);
        Response::Failed(status, text)
    }
}

/// One request in progress.
#[derive(Debug)]
pub struct Handler {
    pub operation: Operation,
    pub stage: Stage,
}

impl Handler {
    /// A handler that runs the schema script.
    pub fn init_db(script: String) -> (handler: Handler)
        ensures
            handler.operation@ == OperationView::Init(script@),
            handler.stage == Stage::Ready,
    {
        Handler { operation: Operation::Init(script), stage: Stage::Ready }
    }

    /// A handler that lists the crabs.
    pub fn get_crabs() -> (handler: Handler)
        ensures
            handler.operation@ == OperationView::List,
            handler.stage == Stage::Ready,
    {
        Handler { operation: Operation::List, stage: Stage::Ready }
    }

    /// A handler that stores the crab of `payload`.
    pub fn add_crab(payload: CrabToBe) -> (handler: Handler)
        ensures
            handler.operation@ == OperationView::Create(payload@),
            handler.stage == Stage::Ready,
    {
        Handler { operation: Operation::Create(payload), stage: Stage::Ready }
    }

    /// Takes in one event: moves to the stage that follows and says what to
    /// do next. The operation stays what it was.
    pub fn step(&mut self, event: Event) -> (action: Action)
        ensures
            final(self).operation@ == old(self).operation@,
            (final(self).stage, action@) == next(old(self).operation@, old(self).stage, event@),
    {
        match self.stage {
            Stage::Ready => match event {
                Event::Start => {
                    self.stage = Stage::Acquiring;
                    Action::Acquire
                },
                _ => Action::Wait,
            },
            Stage::Acquiring => match event {
                Event::Acquired => {
                    self.stage = Stage::Executing;
                    Action::Execute(self.operation.statement())
                },
                Event::AcquireFailed(description) => {
                    self.stage = Stage::Finished;
                    Action::Finish { release: false, response: Response::failure(description) }
                },
                _ => Action::Wait,
            },
            Stage::Executing => match event {
                Event::StatementFailed(description) => {
                    self.stage = Stage::Finished;
                    Action::Finish { release: true, response: Response::failure(description) }
                },
                answer => match self.operation.success(answer) {
                    Some(response) => {
                        self.stage = Stage::Finished;
                        Action::Finish { release: true, response }
                    },
                    None => Action::Wait,
                },
            },
            Stage::Finished => Action::Wait,
        }
    }
}

} // verus!
