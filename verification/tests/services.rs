use quad_bank::admin::{self, AdminError, Command, Outcome};
use quad_bank::api_errors::Error as ApiError;
use quad_bank::bank;
use quad_bank::errors::{Error, ErrorKind};
use quad_bank::handlers::{self, hello_world, submit_payment, PaymentBody};
use quad_bank::json::error_object_text;
use quad_bank::log::IronLogger;
use quad_bank::models::{Account, AccountsTable, DbError};
use quad_bank::routes::{self, CreateAccountRequest, TransferRequest};
use quad_bank::status::Status;

fn two_accounts() -> AccountsTable {
    let mut table = AccountsTable::new();
    bank::create_account(&mut table, "erickt", 100).unwrap();
    bank::create_account(&mut table, "carols10cents", 100).unwrap();
    table
}

#[test]
fn status_codes() {
    assert_eq!(Status::OK.code(), 200);
    assert_eq!(Status::Created.code(), 201);
    assert_eq!(Status::BadRequest.code(), 400);
    assert_eq!(Status::NotFound.code(), 404);
    assert_eq!(Status::Conflict.code(), 409);
    assert_eq!(Status::UnprocessableEntity.code(), 422);
    assert_eq!(Status::InternalServerError.code(), 500);
}

#[test]
fn api_error_from_db_error() {
    assert!(ApiError::from(DbError::NotFound) == ApiError::NotFound);
    assert!(ApiError::from(DbError::UniqueViolation) == ApiError::Conflict);
    assert!(ApiError::from(DbError::Other) == ApiError::InternalServerError);
}

#[test]
fn api_error_responds_with_status() {
    assert_eq!(ApiError::NotFound.respond(), Status::NotFound);
    assert_eq!(ApiError::Conflict.respond(), Status::Conflict);
    assert_eq!(ApiError::InternalServerError.respond(), Status::InternalServerError);
}

#[test]
fn api_error_texts() {
    assert_eq!(ApiError::NotFound.as_str(), "Not Found");
    assert_eq!(ApiError::Conflict.as_str(), "Conflict");
    assert_eq!(ApiError::InternalServerError.as_str(), "Internal Server Error");
}

#[test]
fn error_kind_status_code() {
    assert_eq!(ErrorKind::InvalidJSON("x".to_string()).status_code(), Status::UnprocessableEntity);
    assert_eq!(ErrorKind::LoggerExtractionError.status_code(), Status::InternalServerError);
    assert_eq!(ErrorKind::Msg("m".to_string()).status_code(), Status::InternalServerError);
}

#[test]
fn error_kind_display() {
    assert_eq!(
        ErrorKind::InvalidJSON("trailing comma".to_string()).display(),
        "Could not process request, the submitted data is not valid JSON: trailing comma"
    );
    assert_eq!(ErrorKind::LoggerExtractionError.display(), "Getting logger from iron request failed");
    assert_eq!(ErrorKind::Msg("plain".to_string()).display(), "plain");
}

#[test]
fn error_messages_start_with_the_error() {
    let e = Error::chained(ErrorKind::LoggerExtractionError, "no state".to_string());
    assert_eq!(
        e.messages(),
        vec!["Getting logger from iron request failed".to_string(), "no state".to_string()]
    );
    assert_eq!(e.display(), "Getting logger from iron request failed");
    assert_eq!(Error::from_kind(ErrorKind::Msg("m".to_string())).messages(), vec!["m".to_string()]);
}

#[test]
fn error_object_text_frames_the_values() {
    assert_eq!(
        error_object_text("\"e\"", &vec!["\"a\"".to_string(), "\"b\"".to_string()]),
        "{\"causes\":[\"a\",\"b\"],\"error\":\"e\"}"
    );
    assert_eq!(error_object_text("\"e\"", &Vec::new()), "{\"causes\":[],\"error\":\"e\"}");
}

#[test]
fn error_response_for_invalid_json() {
    let e = Error::from_kind(ErrorKind::InvalidJSON("expected `:`".to_string()));
    let (status, body) = e.response();
    assert_eq!(status, Status::UnprocessableEntity);
    let text = "Could not process request, the submitted data is not valid JSON: expected `:`";
    assert_eq!(body, format!("{{\"causes\":[\"{}\"],\"error\":\"{}\"}}", text, text));
}

#[test]
fn error_response_escapes_the_texts() {
    let e = Error::chained(ErrorKind::LoggerExtractionError, "bad \"state\"\n".to_string());
    assert_eq!(e.status_code(), Status::InternalServerError);
    assert_eq!(
        e.response_body(),
        "{\"causes\":[\"Getting logger from iron request failed\",\"bad \\\"state\\\"\\n\"],\"error\":\"Getting logger from iron request failed\"}"
    );
    let v: serde_json::Value = serde_json::from_str(&e.response_body()).unwrap();
    assert_eq!(v["causes"][1], "bad \"state\"\n");
}

#[test]
fn hello_world_answers() {
    assert_eq!(hello_world(), (Status::OK, "Hello World"));
}

#[test]
fn submit_payment_statuses() {
    assert_eq!(submit_payment(PaymentBody::Json), Status::OK);
    assert_eq!(submit_payment(PaymentBody::Empty), Status::BadRequest);
    assert_eq!(submit_payment(PaymentBody::Invalid), Status::BadRequest);
}

#[test]
fn logger_from_request() {
    assert_eq!(IronLogger::from_request::<u8>(Ok(3)).ok(), Some(3));
    let e = IronLogger::from_request::<u8>(Err("missing".to_string())).err().unwrap();
    assert!(matches!(e.kind, ErrorKind::LoggerExtractionError));
    assert_eq!(e.causes, vec!["missing".to_string()]);
}

#[test]
fn route_show_account() {
    let table = two_accounts();
    let a = routes::show_account("erickt", &table).ok().unwrap();
    assert_eq!((a.id, a.balance), (1, 100));
    assert!(routes::show_account("nobody", &table).err().unwrap() == ApiError::NotFound);
}

#[test]
fn route_create_account() {
    let mut table = two_accounts();
    let req = CreateAccountRequest { username: "Manishearth".to_string(), balance: 2000 };
    let a = routes::create_account(&req, &mut table).ok().unwrap();
    assert_eq!((a.id, a.username.as_str(), a.balance), (3, "Manishearth", 2000));
    assert!(routes::create_account(&req, &mut table).err().unwrap() == ApiError::Conflict);
    assert_eq!(table.len(), 3);
}

#[test]
fn route_transfer() {
    let mut table = two_accounts();
    let req = TransferRequest { username: "carols10cents".to_string(), amount: 100 };
    assert!(routes::transfer("erickt", &req, &mut table).is_ok());
    assert_eq!(Account::find_by_username(&table, "erickt").unwrap().balance, 0);
    assert_eq!(Account::find_by_username(&table, "carols10cents").unwrap().balance, 200);
    assert!(routes::transfer("nobody", &req, &mut table).err().unwrap() == ApiError::NotFound);
}

#[test]
fn admin_commands() {
    let mut table = AccountsTable::new();
    let r = admin::run(&mut table, Command::CreateAccount { username: "erickt".to_string(), balance: 100 });
    assert!(matches!(r, Ok(Outcome::AccountCreated)));
    let r = admin::run(&mut table, Command::CreateAccount { username: "carols10cents".to_string(), balance: 100 });
    assert!(matches!(r, Ok(Outcome::AccountCreated)));
    let r = admin::run(
        &mut table,
        Command::Transfer { src_username: "erickt".to_string(), dst_username: "carols10cents".to_string(), amount: 10 },
    );
    assert!(matches!(r, Ok(Outcome::TransferCompleted)));
    match admin::run(&mut table, Command::ShowAccounts) {
        Ok(Outcome::Accounts(v)) => {
            let rows: Vec<(i32, String, i32)> = v.into_iter().map(|a| (a.id, a.username, a.balance)).collect();
            assert_eq!(rows, vec![(1, "erickt".to_string(), 90), (2, "carols10cents".to_string(), 110)]);
        }
        _ => panic!("show-accounts failed"),
    }
}

#[test]
fn admin_errors() {
    let mut table = AccountsTable::new();
    assert_eq!(admin::run(&mut table, Command::Missing).err(), Some(AdminError::NoCommandSpecified));
    assert!(admin::run(&mut table, Command::CreateAccount { username: "a".to_string(), balance: 1 }).is_ok());
    assert_eq!(
        admin::run(&mut table, Command::CreateAccount { username: "a".to_string(), balance: 2 }).err(),
        Some(AdminError::Database(DbError::UniqueViolation))
    );
    assert_eq!(
        admin::run(
            &mut table,
            Command::Transfer { src_username: "a".to_string(), dst_username: "b".to_string(), amount: 1 }
        )
        .err(),
        Some(AdminError::Database(DbError::NotFound))
    );
}

#[test]
fn error_response_escapes_control_characters() {
    let e = Error::from_kind(ErrorKind::Msg("a\u{1}b\u{1f}c\td\\e\u{8}\u{c}\r".to_string()));
    assert_eq!(
        e.response_body(),
        "{\"causes\":[\"a\\u0001b\\u001fc\\td\\\\e\\b\\f\\r\"],\"error\":\"a\\u0001b\\u001fc\\td\\\\e\\b\\f\\r\"}"
    );
}

#[test]
fn status_reasons() {
    assert_eq!(Status::OK.reason(), "OK");
    assert_eq!(Status::Created.reason(), "Created");
    assert_eq!(Status::BadRequest.reason(), "Bad Request");
    assert_eq!(Status::NotFound.reason(), "Not Found");
    assert_eq!(Status::Conflict.reason(), "Conflict");
    assert_eq!(Status::UnprocessableEntity.reason(), "Unprocessable Entity");
    assert_eq!(Status::InternalServerError.reason(), "Internal Server Error");
}

#[test]
fn api_error_text_is_its_status_reason() {
    for e in [ApiError::NotFound, ApiError::Conflict, ApiError::InternalServerError] {
        assert_eq!(e.as_str(), e.respond().reason());
    }
}

#[test]
fn payment_logger_answers_a_failed_lookup() {
    match handlers::payment_logger::<u8>(Err("Value not found in extensions.".to_string())) {
        Err(resp) => {
            assert_eq!(resp.status, Status::InternalServerError);
            assert_eq!(resp.message, "Getting logger from iron request failed");
            assert_eq!(
                resp.body,
                "{\"causes\":[\"Getting logger from iron request failed\",\"Value not found in extensions.\"],\"error\":\"Getting logger from iron request failed\"}"
            );
        }
        Ok(_) => panic!("a failed lookup gave a logger"),
    }
    assert!(matches!(handlers::payment_logger::<u8>(Ok(7)), Ok(7)));
}
