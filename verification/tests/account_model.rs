use erp::account::{Account, AccountDto, NewAccount};
use erp::account_category::AccountCategory;
use erp::account_type::AccountType;
use erp::money::Money;
use erp::time::Timestamp;

fn new_cash() -> NewAccount {
    NewAccount {
        code: "1000".to_string(),
        name: "Cash".to_string(),
        description: Some("Cash on hand".to_string()),
        account_type: AccountType::Asset,
        category: AccountCategory::CurrentAsset,
        subcategory: None,
        parent_id: Some(7),
    }
}

#[test]
fn opened_account() {
    let now = Timestamp::new(1741068000, 0).unwrap();
    let a = Account::open(new_cash(), 42, now);
    assert_eq!(a.id, 42);
    assert_eq!(a.code, "1000");
    assert_eq!(a.name, "Cash");
    assert_eq!(a.description.as_deref(), Some("Cash on hand"));
    assert_eq!(a.account_type, AccountType::Asset);
    assert_eq!(a.category, AccountCategory::CurrentAsset);
    assert_eq!(a.subcategory, None);
    assert!(a.is_active);
    assert_eq!(a.parent_id, Some(7));
    assert_eq!(a.balance, Money::zero());
    assert_eq!(a.created_at, now);
    assert_eq!(a.updated_at, now);
}

#[test]
fn new_account_is_active_with_zero_balance() {
    let a = Account::new(new_cash());
    assert!(a.is_active);
    assert_eq!(a.balance.to_string(), "0");
    assert_eq!(a.created_at, a.updated_at);
    assert!(a.created_at.secs() > 1_700_000_000);
    assert_eq!((a.id >> 76) & 0xf, 4);
    let b = Account::new(new_cash());
    assert_ne!(a.id, b.id);
    let text = erp::commands::AccountViewModel::from_account(&a).id;
    assert_eq!(text.chars().nth(14), Some('4'));
}

#[test]
fn account_normal_side() {
    let now = Timestamp::new(0, 0).unwrap();
    let a = Account::open(new_cash(), 1, now);
    assert!(a.is_debit_normal());
    assert!(!a.is_credit_normal());
    let mut n = new_cash();
    n.account_type = AccountType::Revenue;
    let r = Account::open(n, 2, now);
    assert!(!r.is_debit_normal());
    assert!(r.is_credit_normal());
}

#[test]
fn update_balance_adds_and_stamps() {
    let then = Timestamp::new(1000, 0).unwrap();
    let mut a = Account::open(new_cash(), 1, then);
    a.update_balance(Money::new(1050, false, 2).unwrap());
    assert_eq!(a.balance.to_string(), "10.50");
    a.update_balance(Money::new(25, true, 1).unwrap());
    assert_eq!(a.balance.to_string(), "8.00");
    assert!(a.updated_at.secs() > 1_700_000_000);
    assert_eq!(a.created_at, then);
    assert_eq!(a.code, "1000");
}

#[test]
fn update_balance_at_stamps_the_given_time() {
    let then = Timestamp::new(1000, 0).unwrap();
    let later = Timestamp::new(1741068000, 500).unwrap();
    let mut a = Account::open(new_cash(), 1, then);
    a.update_balance_at(Money::new(1050, false, 2).unwrap(), later);
    assert_eq!(a.balance.to_string(), "10.50");
    assert_eq!(a.updated_at, later);
    assert_eq!(a.created_at, then);
    assert_eq!(a.id, 1);
    assert_eq!(a.parent_id, Some(7));
}

#[test]
fn try_update_balance_at_keeps_account_on_overflow() {
    let then = Timestamp::new(1000, 0).unwrap();
    let later = Timestamp::new(2000, 0).unwrap();
    let mut a = Account::open(new_cash(), 1, then);
    let max = Money::new(0xFFFF_FFFF_FFFF_FFFF_FFFF_FFFF, false, 0).unwrap();
    assert!(a.try_update_balance_at(max, then));
    assert!(!a.try_update_balance_at(max, later));
    assert_eq!(a.balance, max);
    assert_eq!(a.updated_at, then);
}

#[test]
fn try_update_balance_refuses_overflow() {
    let then = Timestamp::new(1000, 0).unwrap();
    let mut a = Account::open(new_cash(), 1, then);
    let max = Money::new(0xFFFF_FFFF_FFFF_FFFF_FFFF_FFFF, false, 0).unwrap();
    assert!(a.try_update_balance(max));
    assert_eq!(a.balance, max);
    assert!(!a.try_update_balance(max));
    assert_eq!(a.balance, max);
    assert!(a.try_update_balance(Money::new(1, true, 0).unwrap()));
    assert_eq!(a.balance.to_string(), "79228162514264337593543950334");
}

#[test]
fn row_stores_type_and_category_by_name() {
    let now = Timestamp::new(0, 0).unwrap();
    let mut n = new_cash();
    n.account_type = AccountType::Liability;
    n.category = AccountCategory::LongTermLiability;
    let dto = AccountDto::from_account(Account::open(n, 9, now));
    assert_eq!(dto.account_type, "LIABILITY");
    assert_eq!(dto.category, "LONG_TERM_LIABILITY");
    assert_eq!(dto.id, 9);
    assert_eq!(dto.code, "1000");
}

#[test]
fn row_reads_back_as_the_account() {
    let now = Timestamp::new(1741068000, 250).unwrap();
    let mut n = new_cash();
    n.account_type = AccountType::Equity;
    n.category = AccountCategory::RetainedEarnings;
    n.subcategory = Some("Reserves".to_string());
    let a = Account::open(n, 77, now);
    let back = Account::from_dto(AccountDto::from_account(a.duplicate()));
    assert_eq!(back.id, a.id);
    assert_eq!(back.code, a.code);
    assert_eq!(back.name, a.name);
    assert_eq!(back.description, a.description);
    assert_eq!(back.account_type, a.account_type);
    assert_eq!(back.category, a.category);
    assert_eq!(back.subcategory, a.subcategory);
    assert_eq!(back.is_active, a.is_active);
    assert_eq!(back.parent_id, a.parent_id);
    assert_eq!(back.balance, a.balance);
    assert_eq!(back.created_at, a.created_at);
    assert_eq!(back.updated_at, a.updated_at);
}

#[test]
fn row_with_unknown_texts_reads_with_defaults() {
    let now = Timestamp::new(0, 0).unwrap();
    let mut dto = AccountDto::from_account(Account::open(new_cash(), 3, now));
    dto.account_type = "revenue".to_string();
    dto.category = "operating_revenue".to_string();
    let a = Account::from_dto(dto);
    assert_eq!(a.account_type, AccountType::Revenue);
    assert_eq!(a.category, AccountCategory::OperatingRevenue);

    let mut dto = AccountDto::from_account(Account::open(new_cash(), 3, now));
    dto.account_type = "UNKNOWN".to_string();
    dto.category = "".to_string();
    let a = Account::from_dto(dto);
    assert_eq!(a.account_type, AccountType::Asset);
    assert_eq!(a.category, AccountCategory::CurrentAsset);
}
