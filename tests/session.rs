use economy_service::economy_state::Model;
use economy_service::ledger::MAX_ATTEMPTS;
use economy_service::responses::LedgerError;
use economy_service::session::{Action, Event, Operation, Phase, Session};
use economy_service::users::{GetUserResponse, User};

fn account(user_id: i32, balance: i32, banker: bool, version: u64) -> Model {
    Model { id: user_id, user_id, balance, banker, version }
}

fn found(id: i32) -> Event {
    Event::Resolved(GetUserResponse::Found(User { id, username: "bob".to_string(), admin: false }))
}

fn finished(a: Action) -> Result<(), LedgerError> {
    match a {
        Action::Finish(r) => r,
        other => panic!("expected the end, got {:?}", other),
    }
}

#[test]
fn transfer_session_happy_path() {
    let mut s = Session::new(Operation::Transfer { payer_id: 1, payee_id: 2, amount: 30 });
    assert!(matches!(s.step(Event::Begin), Action::Resolve { user_id: 2 }));
    assert!(matches!(s.step(found(2)), Action::Load { first: 1, second: Some(2) }));
    match s.step(Event::Loaded(account(1, 100, false, 3), Some(account(2, 0, false, 8)))) {
        Action::Commit { first, second: Some(second) } => {
            assert_eq!(first.user_id, 1);
            assert_eq!(first.expected_version, 3);
            assert_eq!(first.form.balance, Some(70));
            assert_eq!(second.user_id, 2);
            assert_eq!(second.expected_version, 8);
            assert_eq!(second.form.balance, Some(30));
        }
        other => panic!("expected a commit, got {:?}", other),
    }
    assert_eq!(finished(s.step(Event::Committed)), Ok(()));
    assert!(matches!(s.phase, Phase::Finished(Ok(()))));
    assert_eq!(finished(s.step(Event::Begin)), Ok(()));
}

#[test]
fn transfer_session_rejects_before_lookup() {
    let mut s = Session::new(Operation::Transfer { payer_id: 1, payee_id: 2, amount: -5 });
    assert_eq!(finished(s.step(Event::Begin)), Err(LedgerError::InvalidAmount));
    let mut s = Session::new(Operation::Transfer { payer_id: 2, payee_id: 2, amount: 5 });
    assert_eq!(finished(s.step(Event::Begin)), Err(LedgerError::SelfTransfer));
}

#[test]
fn transfer_session_insufficient_funds() {
    let mut s = Session::new(Operation::Transfer { payer_id: 1, payee_id: 2, amount: 71 });
    s.step(Event::Begin);
    s.step(found(2));
    let a = s.step(Event::Loaded(account(1, 70, false, 1), Some(account(2, 30, false, 1))));
    assert_eq!(finished(a), Err(LedgerError::InsufficientFunds));
}

#[test]
fn transfer_session_unknown_payee() {
    let mut s = Session::new(Operation::Transfer { payer_id: 1, payee_id: 2, amount: 1 });
    s.step(Event::Begin);
    let a = s.step(Event::Resolved(GetUserResponse::NotFound));
    assert_eq!(finished(a), Err(LedgerError::NotFound));
}

#[test]
fn session_retries_conflicts_then_gives_up() {
    let mut s = Session::new(Operation::Transfer { payer_id: 1, payee_id: 2, amount: 10 });
    s.step(Event::Begin);
    s.step(found(2));
    for attempt in 1..=MAX_ATTEMPTS {
        assert_eq!(s.attempt, attempt);
        let a = s.step(Event::Loaded(account(1, 100, false, 0), Some(account(2, 0, false, 0))));
        assert!(matches!(a, Action::Commit { .. }));
        let next = s.step(Event::Conflicted);
        if attempt < MAX_ATTEMPTS {
            assert!(matches!(next, Action::Load { first: 1, second: Some(2) }));
        } else {
            assert_eq!(finished(next), Err(LedgerError::Conflict));
        }
    }
}

#[test]
fn session_ends_on_failure_and_on_unexpected_events() {
    let mut s = Session::new(Operation::Transfer { payer_id: 1, payee_id: 2, amount: 10 });
    s.step(Event::Begin);
    assert_eq!(finished(s.step(Event::Failed)), Err(LedgerError::Dependency));
    let mut s = Session::new(Operation::Transfer { payer_id: 1, payee_id: 2, amount: 10 });
    assert_eq!(finished(s.step(Event::Committed)), Err(LedgerError::Dependency));
}

#[test]
fn session_refuses_accounts_it_did_not_ask_for() {
    let mut s = Session::new(Operation::Transfer { payer_id: 1, payee_id: 2, amount: 10 });
    s.step(Event::Begin);
    s.step(found(2));
    let a = s.step(Event::Loaded(account(1, 100, false, 0), Some(account(3, 0, false, 0))));
    assert_eq!(finished(a), Err(LedgerError::Dependency));
}

#[test]
fn credit_session_requires_banker() {
    let mut s = Session::new(Operation::Credit { caller_id: 5, target_id: 2, amount: 1000 });
    assert!(matches!(s.step(Event::Begin), Action::Load { first: 5, second: None }));
    let a = s.step(Event::Loaded(account(5, 0, false, 0), None));
    assert_eq!(finished(a), Err(LedgerError::Forbidden));
}

#[test]
fn credit_session_happy_path() {
    let mut s = Session::new(Operation::Credit { caller_id: 5, target_id: 2, amount: 1000 });
    s.step(Event::Begin);
    assert!(matches!(s.step(Event::Loaded(account(5, 0, true, 0), None)), Action::Resolve { user_id: 2 }));
    assert!(matches!(s.step(found(2)), Action::Load { first: 2, second: None }));
    match s.step(Event::Loaded(account(2, 30, false, 4), None)) {
        Action::Commit { first, second: None } => {
            assert_eq!(first.user_id, 2);
            assert_eq!(first.expected_version, 4);
            assert_eq!(first.form.balance, Some(1030));
        }
        other => panic!("expected a commit, got {:?}", other),
    }
    assert_eq!(finished(s.step(Event::Committed)), Ok(()));
}

#[test]
fn credit_session_invalid_amount_after_lookup() {
    let mut s = Session::new(Operation::Credit { caller_id: 5, target_id: 2, amount: 0 });
    s.step(Event::Begin);
    s.step(Event::Loaded(account(5, 0, true, 0), None));
    assert_eq!(finished(s.step(found(2))), Err(LedgerError::InvalidAmount));
}

#[test]
fn debit_session_never_plans_negative() {
    let mut s = Session::new(Operation::Debit { caller_id: 5, target_id: 2, amount: 31 });
    s.step(Event::Begin);
    s.step(Event::Loaded(account(5, 0, true, 0), None));
    s.step(found(2));
    let a = s.step(Event::Loaded(account(2, 30, false, 0), None));
    assert_eq!(finished(a), Err(LedgerError::InsufficientFunds));
}
