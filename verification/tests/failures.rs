use crab_service::failure::{acquire_failed, statement_failed};
use crab_service::handler::{Action, Event, Handler, Response};
use crab_service::response::Status;

fn database_error() -> tokio_postgres::Error {
    match "nonsense".parse::<tokio_postgres::Config>() {
        Ok(_) => panic!("a connection string without a value was taken"),
        Err(error) => error,
    }
}

#[test]
fn timed_out_pool_is_described() {
    let error: bb8::RunError<tokio_postgres::Error> = bb8::RunError::TimedOut;
    assert_eq!(acquire_failed(&error), Event::AcquireFailed("Timed out in bb8".to_string()));
}

#[test]
fn pool_passes_on_the_database_error() {
    let text = database_error().to_string();
    assert!(!text.is_empty());
    let error = bb8::RunError::User(database_error());
    assert_eq!(acquire_failed(&error), Event::AcquireFailed(text));
}

#[test]
fn database_error_is_described() {
    let error = database_error();
    assert_eq!(
        statement_failed(&error),
        Event::StatementFailed("invalid connection string".to_string())
    );
}

#[test]
fn pool_error_reaches_the_client_as_it_is() {
    let error: bb8::RunError<tokio_postgres::Error> = bb8::RunError::TimedOut;
    let mut handler = Handler::get_crabs();
    handler.step(Event::Start);
    let action = handler.step(acquire_failed(&error));
    assert_eq!(
        action,
        Action::Finish {
            release: false,
            response: Response::Failed(
                Status::InternalServerError,
                "Timed out in bb8".to_string()
            ),
        }
    );
}

#[test]
fn database_error_reaches_the_client_as_it_is() {
    let error = database_error();
    let mut handler = Handler::add_crab(crab_service::record::CrabToBe {
        name: "Ferris".to_string(),
        age: 5,
        height: 0,
    });
    handler.step(Event::Start);
    handler.step(Event::Acquired);
    let action = handler.step(statement_failed(&error));
    assert_eq!(
        action,
        Action::Finish {
            release: true,
            response: Response::Failed(Status::InternalServerError, error.to_string()),
        }
    );
}
