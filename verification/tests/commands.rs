use erp::account::{Account, NewAccount};
use erp::account_category::AccountCategory;
use erp::account_type::AccountType;
use erp::commands::{
    step, step_at, Action, AccountViewModel, Command, CommandState, Event, NewAccountDto, Reply,
};
use erp::error::{DatabaseError, DbErrorKind};
use erp::money::Money;
use erp::time::Timestamp;

const ID: u128 = 0x550e8400_e29b_41d4_a716_446655440000;
const ID_TEXT: &str = "550e8400-e29b-41d4-a716-446655440000";
const PARENT_TEXT: &str = "936da01f-9abd-4d9d-80c7-02af85c822a8";

fn at(secs: i64) -> Timestamp {
    Timestamp::new(secs, 0).unwrap()
}

fn stored(id: u128) -> Account {
    let mut a = Account::open(
        NewAccount {
            code: "1000".to_string(),
            name: "Cash".to_string(),
            description: None,
            account_type: AccountType::Asset,
            category: AccountCategory::CurrentAsset,
            subcategory: None,
            parent_id: None,
        },
        id,
        at(1741068000),
    );
    a.balance = Money::new(1050, false, 2).unwrap();
    a
}

fn dto(account_type: &str, category: &str, parent: Option<&str>) -> NewAccountDto {
    NewAccountDto {
        code: "2000".to_string(),
        name: "Loans".to_string(),
        description: Some("Bank loans".to_string()),
        account_type: account_type.to_string(),
        category: category.to_string(),
        subcategory: Some("Banks".to_string()),
        parent_id: parent.map(|p| p.to_string()),
    }
}

fn db_error() -> DatabaseError {
    DatabaseError { kind: DbErrorKind::RowNotFound, text: "no rows returned".to_string() }
}

fn failure(r: (CommandState, Action)) -> String {
    match r {
        (CommandState::Done, Action::Reply(Reply::Failed(m))) => m,
        _ => panic!("expected a failure"),
    }
}

fn saved(r: (CommandState, Action)) -> AccountViewModel {
    match r {
        (CommandState::Done, Action::Reply(Reply::Saved(m))) => m,
        _ => panic!("expected a saved account"),
    }
}

#[test]
fn list_commands_ask_the_database() {
    assert!(matches!(
        step(CommandState::Ready, Event::Invoke(Command::GetAccounts), false),
        (CommandState::AwaitingList, Action::FindAll)
    ));
    assert!(matches!(
        step(CommandState::Ready, Event::Invoke(Command::GetRootAccounts), false),
        (CommandState::AwaitingList, Action::FindRoots)
    ));
    let r = step(
        CommandState::Ready,
        Event::Invoke(Command::GetChildAccounts { parent_id: ID_TEXT.to_string() }),
        false,
    );
    assert!(matches!(r, (CommandState::AwaitingList, Action::FindChildren(p)) if p == ID));
}

#[test]
fn listing_replies_with_view_models() {
    let r = step(CommandState::AwaitingList, Event::Listed(Ok(vec![stored(ID), stored(7)])), false);
    match r {
        (CommandState::Done, Action::Reply(Reply::Accounts(v))) => {
            assert_eq!(v.len(), 2);
            assert_eq!(v[0].id, ID_TEXT);
            assert_eq!(v[0].code, "1000");
            assert_eq!(v[0].account_type, "ASSET");
            assert_eq!(v[0].category, "CURRENT_ASSET");
            assert_eq!(v[0].balance, "10.50");
            assert_eq!(v[0].created_at, "2025-03-04T06:00:00+00:00");
            assert_eq!(v[0].parent_id, None);
            assert!(v[0].is_active);
            assert_eq!(v[1].id, "00000000-0000-0000-0000-000000000007");
        },
        _ => panic!("expected accounts"),
    }
}

#[test]
fn listing_failure_is_reported() {
    let r = step(CommandState::AwaitingList, Event::Listed(Err(db_error())), true);
    assert_eq!(failure(r), "Record not found: no rows returned");
    let r = step(CommandState::AwaitingList, Event::Listed(Err(db_error())), false);
    assert_eq!(failure(r), "Record not found");
}

#[test]
fn malformed_ids_fail() {
    let r = step(CommandState::Ready, Event::Invoke(Command::GetAccount { id: "42".to_string() }), false);
    assert!(failure(r).starts_with("Invalid UUID format: "));
    let r = step(CommandState::Ready, Event::Invoke(Command::DeleteAccount { id: String::new() }), false);
    assert!(failure(r).starts_with("Invalid UUID format: "));
    let r = step(
        CommandState::Ready,
        Event::Invoke(Command::GetChildAccounts { parent_id: "x".to_string() }),
        false,
    );
    assert!(failure(r).starts_with("Invalid UUID format: "));
}

#[test]
fn get_account_replies_with_the_account_or_none() {
    let r = step(CommandState::Ready, Event::Invoke(Command::GetAccount { id: ID_TEXT.to_string() }), false);
    assert!(matches!(r, (CommandState::AwaitingAccount, Action::FindById(i)) if i == ID));
    let r = step(CommandState::AwaitingAccount, Event::Found(Ok(Some(stored(ID)))), false);
    match r {
        (CommandState::Done, Action::Reply(Reply::Account(Some(m)))) => assert_eq!(m.id, ID_TEXT),
        _ => panic!("expected the account"),
    }
    let r = step(CommandState::AwaitingAccount, Event::Found(Ok(None)), false);
    assert!(matches!(r, (CommandState::Done, Action::Reply(Reply::Account(None)))));
}

#[test]
fn create_validates_type_category_and_parent() {
    let r = step(
        CommandState::Ready,
        Event::Invoke(Command::CreateAccount { new_account: dto("DEBT", "CURRENT_LIABILITY", None) }),
        false,
    );
    assert_eq!(failure(r), "A validation error occurred: Invalid account type");
    let r = step(
        CommandState::Ready,
        Event::Invoke(Command::CreateAccount { new_account: dto("LIABILITY", "LOANS", None) }),
        false,
    );
    assert_eq!(failure(r), "A validation error occurred: Invalid account category");
    let r = step(
        CommandState::Ready,
        Event::Invoke(Command::CreateAccount {
            new_account: dto("LIABILITY", "CURRENT_LIABILITY", Some("zzz")),
        }),
        false,
    );
    assert!(failure(r).starts_with("Invalid parent UUID format: "));
}

#[test]
fn create_inserts_the_opened_account() {
    let now = at(1741068000);
    let r = step_at(
        CommandState::Ready,
        Event::Invoke(Command::CreateAccount {
            new_account: dto("liability", "long_term_liability", Some(PARENT_TEXT)),
        }),
        false,
        ID,
        now,
    );
    let (state, action) = r;
    match action {
        Action::Insert(a) => {
            assert_eq!(a.id, ID);
            assert_eq!(a.code, "2000");
            assert_eq!(a.name, "Loans");
            assert_eq!(a.description.as_deref(), Some("Bank loans"));
            assert_eq!(a.account_type, AccountType::Liability);
            assert_eq!(a.category, AccountCategory::LongTermLiability);
            assert_eq!(a.subcategory.as_deref(), Some("Banks"));
            assert_eq!(a.parent_id, Some(0x936da01f_9abd_4d9d_80c7_02af85c822a8));
            assert!(a.is_active);
            assert_eq!(a.balance, Money::zero());
            assert_eq!(a.created_at, now);
            assert_eq!(a.updated_at, now);
        },
        _ => panic!("expected an insertion"),
    }
    let m = saved(step(state, Event::Written(Ok(())), false));
    assert_eq!(m.id, ID_TEXT);
    assert_eq!(m.parent_id.as_deref(), Some(PARENT_TEXT));
    assert_eq!(m.balance, "0");
    assert_eq!(m.account_type, "LIABILITY");
}

#[test]
fn create_with_empty_parent_has_no_parent() {
    let r = step(
        CommandState::Ready,
        Event::Invoke(Command::CreateAccount { new_account: dto("ASSET", "FIXED_ASSET", Some("")) }),
        false,
    );
    match r {
        (CommandState::AwaitingInsert(_), Action::Insert(a)) => {
            assert_eq!(a.parent_id, None);
            assert_eq!((a.id >> 76) & 0xf, 4);
        },
        _ => panic!("expected an insertion"),
    }
}

#[test]
fn create_failure_is_reported() {
    let r = step(
        CommandState::AwaitingInsert(stored(ID)),
        Event::Written(Err(DatabaseError { kind: DbErrorKind::PoolTimedOut, text: "t".to_string() })),
        false,
    );
    assert_eq!(failure(r), "Database connection timeout");
}

#[test]
fn update_saves_edited_account() {
    let r = step(
        CommandState::Ready,
        Event::Invoke(Command::UpdateAccount {
            id: ID_TEXT.to_string(),
            update_data: dto("Liability", "Other_Liability", None),
        }),
        false,
    );
    let (state, action) = r;
    assert!(matches!(action, Action::FindById(i) if i == ID));
    let now = at(1800000000);
    let (state, action) = step_at(state, Event::Found(Ok(Some(stored(ID)))), false, 0, now);
    match action {
        Action::Update(a) => {
            assert_eq!(a.id, ID);
            assert_eq!(a.code, "2000");
            assert_eq!(a.name, "Loans");
            assert_eq!(a.account_type, AccountType::Liability);
            assert_eq!(a.category, AccountCategory::OtherLiability);
            assert_eq!(a.balance.to_string(), "10.50");
            assert_eq!(a.created_at, at(1741068000));
            assert_eq!(a.updated_at, now);
            assert!(a.is_active);
        },
        _ => panic!("expected an update"),
    }
    let m = saved(step(state, Event::Written(Ok(())), false));
    assert_eq!(m.updated_at, "2027-01-15T08:00:00+00:00");
    assert_eq!(m.created_at, "2025-03-04T06:00:00+00:00");
}

#[test]
fn update_of_missing_account_fails() {
    let state = CommandState::AwaitingUpdateTarget(dto("ASSET", "FIXED_ASSET", None));
    let r = step(state, Event::Found(Ok(None)), false);
    assert_eq!(failure(r), "Resource not found: Account not found");
}

#[test]
fn update_validates_after_lookup() {
    let state = CommandState::AwaitingUpdateTarget(dto("ASSET", "NOPE", None));
    let r = step(state, Event::Found(Ok(Some(stored(ID)))), false);
    assert_eq!(failure(r), "A validation error occurred: Invalid account category");
    let state = CommandState::AwaitingUpdateTarget(dto("ASSET", "NOPE", None));
    let r = step(state, Event::Found(Err(db_error())), true);
    assert_eq!(failure(r), "Record not found: no rows returned");
}

#[test]
fn toggle_flips_active_status() {
    let r = step(
        CommandState::Ready,
        Event::Invoke(Command::ToggleAccountStatus { id: ID_TEXT.to_string() }),
        false,
    );
    assert!(matches!(r, (CommandState::AwaitingToggleTarget, Action::FindById(i)) if i == ID));
    let now = at(1800000000);
    let (state, action) = step_at(r.0, Event::Found(Ok(Some(stored(ID)))), false, 0, now);
    match action {
        Action::Update(a) => {
            assert!(!a.is_active);
            assert_eq!(a.code, "1000");
            assert_eq!(a.updated_at, now);
        },
        _ => panic!("expected an update"),
    }
    let m = saved(step(state, Event::Written(Ok(())), false));
    assert!(!m.is_active);
    let r = step(CommandState::AwaitingToggleTarget, Event::Found(Ok(None)), false);
    assert_eq!(failure(r), "Resource not found: Account not found");
}

#[test]
fn delete_replies_when_written() {
    let r = step(CommandState::Ready, Event::Invoke(Command::DeleteAccount { id: ID_TEXT.to_string() }), false);
    assert!(matches!(r, (CommandState::AwaitingDelete, Action::Delete(i)) if i == ID));
    assert!(matches!(
        step(CommandState::AwaitingDelete, Event::Written(Ok(())), false),
        (CommandState::Done, Action::Reply(Reply::Deleted))
    ));
    let r = step(
        CommandState::AwaitingDelete,
        Event::Written(Err(DatabaseError {
            kind: DbErrorKind::ColumnNotFound("id".to_string()),
            text: "column id".to_string(),
        })),
        true,
    );
    assert_eq!(failure(r), "Column not found: id: column id");
}

#[test]
fn deleting_twice_asks_and_answers_the_same() {
    for _ in 0..2 {
        let r = step(
            CommandState::Ready,
            Event::Invoke(Command::DeleteAccount { id: ID_TEXT.to_string() }),
            false,
        );
        assert!(matches!(r, (CommandState::AwaitingDelete, Action::Delete(i)) if i == ID));
        assert!(matches!(
            step(CommandState::AwaitingDelete, Event::Written(Ok(())), false),
            (CommandState::Done, Action::Reply(Reply::Deleted))
        ));
    }
}

#[test]
fn view_model_of_account() {
    let mut a = stored(ID);
    a.parent_id = Some(1);
    a.description = Some("d".to_string());
    let m = AccountViewModel::from_account(&a);
    assert_eq!(m.id, ID_TEXT);
    assert_eq!(m.parent_id.as_deref(), Some("00000000-0000-0000-0000-000000000001"));
    assert_eq!(m.description.as_deref(), Some("d"));
    assert_eq!(m.name, "Cash");
    assert_eq!(m.updated_at, "2025-03-04T06:00:00+00:00");
}
