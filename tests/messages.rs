use economy_service::economy_state::{EconomyStateMessage, Model};
use economy_service::responses::{AppError, ErrorKind, LedgerError};
use economy_service::user_state::UserStateModel;
use economy_service::users::{GetSelfResponse, GetUserResponse, User};

fn user(id: i32) -> User {
    User { id, username: "alice".to_string(), admin: true }
}

#[test]
fn model_into_message() {
    let m = Model { id: 1, user_id: 12, balance: 34, banker: true, version: 2 };
    assert_eq!(m.into_message(), EconomyStateMessage { user_id: 12, balance: 34 });
}

#[test]
fn user_state_into_message() {
    let m = UserStateModel { id: 1, user_id: 5, balance: 77, banker: false };
    assert_eq!(m.into_message(), EconomyStateMessage { user_id: 5, balance: 77 });
}

#[test]
fn app_error_keeps_detail() {
    assert_eq!(AppError::new("User not found").detail, "User not found");
}

#[test]
fn error_details_and_statuses() {
    let cases = [
        (LedgerError::InvalidAmount, 400, "validation"),
        (LedgerError::SelfTransfer, 400, "validation"),
        (LedgerError::InsufficientFunds, 400, "validation"),
        (LedgerError::BalanceOverflow, 400, "validation"),
        (LedgerError::MissingToken, 401, "authentication"),
        (LedgerError::Unauthenticated, 401, "authentication"),
        (LedgerError::Forbidden, 403, "authorization"),
        (LedgerError::NotFound, 404, "not_found"),
        (LedgerError::Conflict, 409, "conflict"),
        (LedgerError::Dependency, 500, "dependency"),
    ];
    for (e, status, kind) in cases {
        assert_eq!(e.status_code(), status);
        assert_eq!(e.kind().as_str(), kind);
        assert_eq!(e.kind().status_code(), status);
        assert_eq!(e.to_app_error().detail, e.detail());
    }
    assert_eq!(LedgerError::InsufficientFunds.detail(), "Insufficient funds");
    assert_eq!(LedgerError::SelfTransfer.detail(), "Cannot pay to yourself");
    assert_eq!(LedgerError::MissingToken.detail(), "No token provided");
    assert_eq!(LedgerError::Forbidden.kind(), ErrorKind::Authorization);
}

#[test]
fn user_response_from_status() {
    match GetUserResponse::from_status(200, Some(user(3))) {
        Some(GetUserResponse::Found(u)) => assert_eq!(u.id, 3),
        other => panic!("unexpected {:?}", other),
    }
    assert!(GetUserResponse::from_status(200, None).is_none());
    assert!(matches!(GetUserResponse::from_status(400, None), Some(GetUserResponse::BadRequest)));
    assert!(matches!(GetUserResponse::from_status(404, None), Some(GetUserResponse::NotFound)));
    assert!(GetUserResponse::from_status(500, None).is_none());
}

#[test]
fn self_response_from_status() {
    assert!(matches!(
        GetSelfResponse::from_status(200, Some(user(4))),
        Some(GetSelfResponse::Authenticated(_))
    ));
    assert!(matches!(GetSelfResponse::from_status(401, None), Some(GetSelfResponse::Unauthenticated)));
    assert!(GetSelfResponse::from_status(404, None).is_none());
}

#[test]
fn caller_from_self_response() {
    assert_eq!(GetSelfResponse::Authenticated(user(4)).into_caller().unwrap().id, 4);
    assert_eq!(
        GetSelfResponse::Unauthenticated.into_caller().unwrap_err(),
        LedgerError::Unauthenticated
    );
}

#[test]
fn require_found_cases() {
    assert_eq!(GetUserResponse::Found(user(1)).require_found(), Ok(()));
    assert_eq!(GetUserResponse::NotFound.require_found(), Err(LedgerError::NotFound));
    assert_eq!(GetUserResponse::BadRequest.require_found(), Err(LedgerError::Dependency));
}
