use erp::account_category::AccountCategory;
use erp::account_type::AccountType;

const TYPES: [AccountType; 5] = [
    AccountType::Asset,
    AccountType::Liability,
    AccountType::Equity,
    AccountType::Revenue,
    AccountType::Expense,
];

const CATEGORIES: [AccountCategory; 12] = [
    AccountCategory::CurrentAsset,
    AccountCategory::FixedAsset,
    AccountCategory::OtherAsset,
    AccountCategory::CurrentLiability,
    AccountCategory::LongTermLiability,
    AccountCategory::OtherLiability,
    AccountCategory::OwnerEquity,
    AccountCategory::RetainedEarnings,
    AccountCategory::OperatingRevenue,
    AccountCategory::NonOperatingRevenue,
    AccountCategory::OperatingExpense,
    AccountCategory::NonOperatingExpense,
];

#[test]
fn type_names() {
    let names: Vec<String> = TYPES.iter().map(|t| t.to_string()).collect();
    assert_eq!(names, vec!["ASSET", "LIABILITY", "EQUITY", "REVENUE", "EXPENSE"]);
}

#[test]
fn type_name_reads_back() {
    for t in TYPES {
        assert_eq!(AccountType::from_str(&t.to_string()), Some(t));
    }
}

#[test]
fn type_parse_ignores_case() {
    assert_eq!(AccountType::from_str("asset"), Some(AccountType::Asset));
    assert_eq!(AccountType::from_str("Liability"), Some(AccountType::Liability));
    assert_eq!(AccountType::from_str("eQuItY"), Some(AccountType::Equity));
    assert_eq!(AccountType::from_str("revenue"), Some(AccountType::Revenue));
    assert_eq!(AccountType::from_str("EXPENSE"), Some(AccountType::Expense));
}

#[test]
fn type_parse_rejects_other_text() {
    assert_eq!(AccountType::from_str(""), None);
    assert_eq!(AccountType::from_str("assets"), None);
    assert_eq!(AccountType::from_str(" ASSET"), None);
    assert_eq!(AccountType::from_str("CURRENT_ASSET"), None);
}

#[test]
fn type_parse_uses_unicode_upper_case() {
    // 'ß' upper-cases to "SS", so this reads as "ASSET".
    assert_eq!(AccountType::from_str("aßet"), Some(AccountType::Asset));
}

#[test]
fn exact_type_match_is_case_sensitive() {
    assert_eq!(AccountType::from_upper("ASSET"), Some(AccountType::Asset));
    assert_eq!(AccountType::from_upper("asset"), None);
}

#[test]
fn normal_balance_sides() {
    assert!(AccountType::Asset.is_debit_normal());
    assert!(AccountType::Expense.is_debit_normal());
    assert!(AccountType::Liability.is_credit_normal());
    assert!(AccountType::Equity.is_credit_normal());
    assert!(AccountType::Revenue.is_credit_normal());
    for t in TYPES {
        assert_ne!(t.is_debit_normal(), t.is_credit_normal());
    }
}

#[test]
fn category_names() {
    let names: Vec<String> = CATEGORIES.iter().map(|c| c.to_string()).collect();
    assert_eq!(
        names,
        vec![
            "CURRENT_ASSET",
            "FIXED_ASSET",
            "OTHER_ASSET",
            "CURRENT_LIABILITY",
            "LONG_TERM_LIABILITY",
            "OTHER_LIABILITY",
            "OWNER_EQUITY",
            "RETAINED_EARNINGS",
            "OPERATING_REVENUE",
            "NON_OPERATING_REVENUE",
            "OPERATING_EXPENSE",
            "NON_OPERATING_EXPENSE",
        ]
    );
}

#[test]
fn category_name_reads_back() {
    for c in CATEGORIES {
        assert_eq!(AccountCategory::from_str(&c.to_string()), Some(c));
    }
}

#[test]
fn category_parse_ignores_case() {
    assert_eq!(AccountCategory::from_str("fixed_asset"), Some(AccountCategory::FixedAsset));
    assert_eq!(
        AccountCategory::from_str("Non_Operating_Expense"),
        Some(AccountCategory::NonOperatingExpense)
    );
    assert_eq!(AccountCategory::from_str("fixed asset"), None);
    assert_eq!(AccountCategory::from_str(""), None);
}

#[test]
fn categories_for_each_type() {
    assert_eq!(
        AccountCategory::for_account_type(AccountType::Asset),
        vec![AccountCategory::CurrentAsset, AccountCategory::FixedAsset, AccountCategory::OtherAsset]
    );
    assert_eq!(
        AccountCategory::for_account_type(AccountType::Liability),
        vec![
            AccountCategory::CurrentLiability,
            AccountCategory::LongTermLiability,
            AccountCategory::OtherLiability
        ]
    );
    assert_eq!(
        AccountCategory::for_account_type(AccountType::Equity),
        vec![AccountCategory::OwnerEquity, AccountCategory::RetainedEarnings]
    );
    assert_eq!(
        AccountCategory::for_account_type(AccountType::Revenue),
        vec![AccountCategory::OperatingRevenue, AccountCategory::NonOperatingRevenue]
    );
    assert_eq!(
        AccountCategory::for_account_type(AccountType::Expense),
        vec![AccountCategory::OperatingExpense, AccountCategory::NonOperatingExpense]
    );
}

#[test]
fn categories_partition_the_types() {
    let mut total = 0;
    for t in TYPES {
        let cats = AccountCategory::for_account_type(t);
        total += cats.len();
        for c in &cats {
            for t2 in TYPES {
                if t2 != t {
                    assert!(!AccountCategory::for_account_type(t2).contains(c));
                }
            }
        }
    }
    assert_eq!(total, CATEGORIES.len());
}
