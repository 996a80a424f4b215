use economy_service::economy_state::{update_economy_state, Model, UpdateEconomyStateForm};
use economy_service::store::{updated, AccountStore, RowUpdate, StoreError};

fn set(user_id: i32, expected_version: u64, balance: i32) -> RowUpdate {
    RowUpdate {
        user_id,
        expected_version,
        form: UpdateEconomyStateForm { balance: Some(balance), banker: None },
    }
}

#[test]
fn new_store_is_empty() {
    let store = AccountStore::new();
    assert_eq!(store.get(1), None);
}

#[test]
fn create_if_absent_assigns_fresh_rows() {
    let mut store = AccountStore::new();
    let a = store.create_if_absent(10).unwrap();
    let b = store.create_if_absent(20).unwrap();
    assert_eq!(a, Model { id: 1, user_id: 10, balance: 0, banker: false, version: 0 });
    assert_eq!(b.id, 2);
    assert_eq!(store.create_if_absent(10), Ok(a));
}

#[test]
fn compare_and_update_checks_version() {
    let mut store = AccountStore::new();
    store.create_if_absent(10).unwrap();
    let m = store.compare_and_update(set(10, 0, 50)).unwrap();
    assert_eq!(m.balance, 50);
    assert_eq!(m.version, 1);
    assert_eq!(store.compare_and_update(set(10, 0, 60)), Err(StoreError::Conflict));
    assert_eq!(store.get(10).unwrap().balance, 50);
}

#[test]
fn compare_and_update_unknown_user() {
    let mut store = AccountStore::new();
    assert_eq!(store.compare_and_update(set(10, 0, 5)), Err(StoreError::NotFound));
}

#[test]
fn compare_and_update_refuses_negative() {
    let mut store = AccountStore::new();
    store.create_if_absent(10).unwrap();
    assert_eq!(store.compare_and_update(set(10, 0, -1)), Err(StoreError::NegativeBalance));
    assert_eq!(store.get(10).unwrap().version, 0);
}

#[test]
fn commit_pair_is_all_or_nothing() {
    let mut store = AccountStore::new();
    store.create_if_absent(1).unwrap();
    store.create_if_absent(2).unwrap();
    assert_eq!(store.commit_pair(set(1, 0, 5), set(2, 3, 7)), Err(StoreError::Conflict));
    assert_eq!(store.get(1).unwrap().balance, 0);
    assert_eq!(store.get(1).unwrap().version, 0);
    assert_eq!(store.commit_pair(set(1, 0, 5), set(3, 0, 7)), Err(StoreError::NotFound));
    assert_eq!(store.get(1).unwrap().balance, 0);
    assert_eq!(store.commit_pair(set(1, 0, 5), set(2, 0, 7)), Ok(()));
    assert_eq!(store.get(1).unwrap().balance, 5);
    assert_eq!(store.get(2).unwrap().balance, 7);
}

#[test]
fn commit_pair_on_one_row_sees_first_write() {
    let mut store = AccountStore::new();
    store.create_if_absent(1).unwrap();
    assert_eq!(store.commit_pair(set(1, 0, 5), set(1, 0, 7)), Err(StoreError::Conflict));
    assert_eq!(store.commit_pair(set(1, 0, 5), set(1, 1, 7)), Ok(()));
    assert_eq!(store.get(1).unwrap().balance, 7);
    assert_eq!(store.get(1).unwrap().version, 2);
}

#[test]
fn updated_wraps_version() {
    let m = Model { id: 1, user_id: 1, balance: 3, banker: false, version: u64::MAX };
    let next = updated(m, &set(1, u64::MAX, 4)).unwrap();
    assert_eq!(next.version, 0);
    assert_eq!(next.balance, 4);
}

#[test]
fn update_form_replaces_only_given_fields() {
    let m = Model { id: 3, user_id: 8, balance: 12, banker: false, version: 5 };
    let both = update_economy_state(m, UpdateEconomyStateForm { balance: Some(1), banker: Some(true) });
    assert_eq!(both, Model { id: 3, user_id: 8, balance: 1, banker: true, version: 5 });
    assert_eq!(update_economy_state(m, UpdateEconomyStateForm::default()), m);
}
