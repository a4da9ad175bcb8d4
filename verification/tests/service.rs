use crab_service::handler::{Action, Event, Handler, Response, Statement};
use crab_service::record::{Crab, CrabRow, CrabToBe};
use crab_service::response::Status;

/// A table in memory that numbers its rows from one, or a storage that
/// cannot be reached.
struct Table {
    rows: Vec<CrabRow>,
    next_id: i32,
    reachable: bool,
}

fn empty_table() -> Table {
    Table { rows: Vec::new(), next_id: 1, reachable: true }
}

fn execute(table: &mut Table, statement: Statement) -> Event {
    match statement {
        Statement::Batch(_) => Event::Executed,
        Statement::Query(_) => Event::Rows(table.rows.clone()),
        Statement::Insert { name, age, height, .. } => {
            table.rows.push(CrabRow { id: table.next_id, name, age, height });
            table.next_id += 1;
            Event::Executed
        }
    }
}

/// Runs a handler against the table, as the service runs one against the
/// pool: it does what the handler asks and hands back what happened.
fn serve(table: &mut Table, mut handler: Handler) -> Response {
    let mut held = false;
    let mut action = handler.step(Event::Start);
    for _ in 0..8 {
        let event = match action {
            Action::Acquire => {
                if table.reachable {
                    held = true;
                    Event::Acquired
                } else {
                    Event::AcquireFailed("Timed out in bb8".to_string())
                }
            }
            Action::Execute(statement) => {
                assert!(held);
                execute(table, statement)
            }
            Action::Finish { release, response } => {
                assert_eq!(release, held);
                return response;
            }
            Action::Wait => panic!("the handler waits for an event that was given"),
        };
        action = handler.step(event);
    }
    panic!("the handler did not finish")
}

fn payload(name: &str, age: i16, height: f32) -> CrabToBe {
    CrabToBe { name: name.to_string(), age, height: height.to_bits() }
}

fn listed(response: Response) -> Vec<Crab> {
    match response {
        Response::Listed(status, crabs) => {
            assert_eq!(status.code(), 200);
            crabs
        }
        other => panic!("not a listing: {:?}", other),
    }
}

#[test]
fn ferris_is_created_and_listed() {
    let mut table = empty_table();
    let created = serve(&mut table, Handler::add_crab(payload("Ferris", 5, 0.1)));
    assert_eq!(created, Response::Created(Status::Created));
    assert_eq!(Status::Created.code(), 201);
    let crabs = listed(serve(&mut table, Handler::get_crabs()));
    assert_eq!(crabs, vec![Crab { id: 1, name: "Ferris".to_string(), age: 5, height: 0.1f32.to_bits() }]);
    assert_eq!(f32::from_bits(crabs[0].height), 0.1);
}

#[test]
fn empty_table_lists_nothing() {
    let mut table = empty_table();
    assert_eq!(
        serve(&mut table, Handler::get_crabs()),
        Response::Listed(Status::Success, Vec::new())
    );
}

#[test]
fn created_crab_has_an_unseen_identifier() {
    let mut table = empty_table();
    serve(&mut table, Handler::add_crab(payload("a", 1, 0.5)));
    serve(&mut table, Handler::add_crab(payload("b", 2, 1.5)));
    let before = listed(serve(&mut table, Handler::get_crabs()));
    serve(&mut table, Handler::add_crab(payload("c", -3, 2.5)));
    let after = listed(serve(&mut table, Handler::get_crabs()));
    assert_eq!(after.len(), before.len() + 1);
    assert_eq!(&after[..before.len()], &before[..]);
    let new = &after[before.len()];
    assert_eq!(new.name, "c");
    assert_eq!(new.age, -3);
    assert_eq!(f32::from_bits(new.height), 2.5);
    assert!(before.iter().all(|crab| crab.id != new.id));
}

#[test]
fn interleaved_creations_are_both_listed() {
    let mut table = empty_table();
    let mut first = Handler::add_crab(payload("one", 1, 0.25));
    let mut second = Handler::add_crab(payload("two", 2, 0.75));
    assert_eq!(first.step(Event::Start), Action::Acquire);
    assert_eq!(second.step(Event::Start), Action::Acquire);
    let first_statement = match first.step(Event::Acquired) {
        Action::Execute(statement) => statement,
        other => panic!("no statement: {:?}", other),
    };
    let second_statement = match second.step(Event::Acquired) {
        Action::Execute(statement) => statement,
        other => panic!("no statement: {:?}", other),
    };
    let second_event = execute(&mut table, second_statement);
    let first_event = execute(&mut table, first_statement);
    assert_eq!(
        first.step(first_event),
        Action::Finish { release: true, response: Response::Created(Status::Created) }
    );
    assert_eq!(
        second.step(second_event),
        Action::Finish { release: true, response: Response::Created(Status::Created) }
    );
    let crabs = listed(serve(&mut table, Handler::get_crabs()));
    assert_eq!(crabs.len(), 2);
    let one = crabs.iter().find(|crab| crab.name == "one").expect("the first crab is listed");
    let two = crabs.iter().find(|crab| crab.name == "two").expect("the second crab is listed");
    assert_eq!((one.age, f32::from_bits(one.height)), (1, 0.25));
    assert_eq!((two.age, f32::from_bits(two.height)), (2, 0.75));
    assert_ne!(one.id, two.id);
}

#[test]
fn unreachable_storage_fails_both_operations() {
    let mut table = empty_table();
    table.reachable = false;
    let failure = Response::Failed(Status::InternalServerError, "Timed out in bb8".to_string());
    assert_eq!(serve(&mut table, Handler::get_crabs()), failure);
    assert_eq!(serve(&mut table, Handler::add_crab(payload("Ferris", 5, 0.1))), failure);
    assert_eq!(Status::InternalServerError.code(), 500);
    assert!(table.rows.is_empty());
    table.reachable = true;
    assert_eq!(
        serve(&mut table, Handler::get_crabs()),
        Response::Listed(Status::Success, Vec::new())
    );
}

#[test]
fn schema_script_is_run_as_one_batch() {
    let mut table = empty_table();
    assert_eq!(
        serve(&mut table, Handler::init_db("CREATE TABLE IF NOT EXISTS crabs ()".to_string())),
        Response::Initialized
    );
    assert!(table.rows.is_empty());
}
