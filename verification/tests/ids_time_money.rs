use erp::account::{Account, NewAccount};
use erp::account_category::AccountCategory;
use erp::account_type::AccountType;
use erp::commands::{parse_account_id, AccountViewModel};
use erp::money::Money;
use erp::time::Timestamp;

fn account_with_id(id: u128) -> Account {
    Account::open(
        NewAccount {
            code: "1".to_string(),
            name: "n".to_string(),
            description: None,
            account_type: AccountType::Asset,
            category: AccountCategory::CurrentAsset,
            subcategory: None,
            parent_id: None,
        },
        id,
        Timestamp::new(0, 0).unwrap(),
    )
}

fn id_text(id: u128) -> String {
    AccountViewModel::from_account(&account_with_id(id)).id
}

#[test]
fn uuid_text_is_hyphenated_lower_case() {
    let id: u128 = 0x550e8400_e29b_41d4_a716_446655440000;
    assert_eq!(id_text(id), "550e8400-e29b-41d4-a716-446655440000");
    assert_eq!(id_text(0), "00000000-0000-0000-0000-000000000000");
    assert_eq!(id_text(u128::MAX), "ffffffff-ffff-ffff-ffff-ffffffffffff");
}

#[test]
fn uuid_text_parses_back() {
    let id: u128 = 0x936da01f_9abd_4d9d_80c7_02af85c822a8;
    assert_eq!(parse_account_id(&id_text(id)), Ok(id));
}

#[test]
fn uuid_other_forms_parse() {
    let id: u128 = 0x550e8400_e29b_41d4_a716_446655440000;
    assert_eq!(parse_account_id("550E8400-E29B-41D4-A716-446655440000"), Ok(id));
    assert_eq!(parse_account_id("550e8400e29b41d4a716446655440000"), Ok(id));
    assert_eq!(parse_account_id("{550e8400-e29b-41d4-a716-446655440000}"), Ok(id));
    assert_eq!(parse_account_id("urn:uuid:550e8400-e29b-41d4-a716-446655440000"), Ok(id));
}

#[test]
fn uuid_malformed_text_is_an_error() {
    for bad in ["", "not-a-uuid", "550e8400-e29b-41d4-a716-44665544000g", "abc"] {
        let e = parse_account_id(bad).unwrap_err();
        assert!(e.starts_with("Invalid UUID format: "));
        assert!(e.len() > "Invalid UUID format: ".len());
    }
}

#[test]
fn timestamps_in_range() {
    assert!(Timestamp::new(0, 0).is_some());
    assert!(Timestamp::new(0, 999_999_999).is_some());
    assert!(Timestamp::new(0, 1_000_000_000).is_none());
    assert!(Timestamp::new(-8334601228800, 0).is_some());
    assert!(Timestamp::new(-8334601228801, 0).is_none());
    assert!(Timestamp::new(8210266876799, 0).is_some());
    assert!(Timestamp::new(8210266876800, 0).is_none());
    let t = Timestamp::new(1741068000, 5).unwrap();
    assert_eq!(t.secs(), 1741068000);
    assert_eq!(t.nanos(), 5);
}

#[test]
fn timestamp_rfc3339_text() {
    assert_eq!(Timestamp::new(0, 0).unwrap().to_rfc3339(), "1970-01-01T00:00:00+00:00");
    assert_eq!(
        Timestamp::new(1741068000, 0).unwrap().to_rfc3339(),
        "2025-03-04T06:00:00+00:00"
    );
    assert_eq!(
        Timestamp::new(1741068000, 500_000_000).unwrap().to_rfc3339(),
        "2025-03-04T06:00:00.500+00:00"
    );
    assert_eq!(
        Timestamp::new(-1, 123_456_789).unwrap().to_rfc3339(),
        "1969-12-31T23:59:59.123456789+00:00"
    );
    assert_eq!(
        Timestamp::new(8210266876799, 0).unwrap().to_rfc3339(),
        "+262142-12-31T23:59:59+00:00"
    );
    assert_eq!(
        Timestamp::new(-8334601228800, 0).unwrap().to_rfc3339(),
        "-262143-01-01T00:00:00+00:00"
    );
}

#[test]
fn now_is_after_the_epoch() {
    let t = Timestamp::now();
    assert!(t.secs() > 1_700_000_000);
    assert!(t.nanos() < 1_000_000_000);
}

#[test]
fn money_parts_in_range() {
    assert!(Money::new(0, false, 0).is_some());
    assert!(Money::new(0xFFFF_FFFF_FFFF_FFFF_FFFF_FFFF, true, 28).is_some());
    assert!(Money::new(0x1_0000_0000_0000_0000_0000_0000, false, 0).is_none());
    assert!(Money::new(1, false, 29).is_none());
    let m = Money::new(1050, true, 2).unwrap();
    assert_eq!(m.magnitude(), 1050);
    assert!(m.is_negative());
    assert_eq!(m.scale(), 2);
}

#[test]
fn money_text() {
    assert_eq!(Money::zero().to_string(), "0");
    assert_eq!(Money::new(1050, false, 2).unwrap().to_string(), "10.50");
    assert_eq!(Money::new(1050, true, 2).unwrap().to_string(), "-10.50");
    assert_eq!(Money::new(5, false, 3).unwrap().to_string(), "0.005");
    assert_eq!(Money::new(125430, false, 0).unwrap().to_string(), "125430");
    assert_eq!(Money::new(0, true, 2).unwrap().to_string(), "-0.00");
    assert_eq!(Money::new(0, false, 3).unwrap().to_string(), "0.000");
    assert_eq!(Money::new(0, true, 0).unwrap().to_string(), "-0");
}

#[test]
fn money_sum() {
    let a = Money::new(1050, false, 2).unwrap();
    let b = Money::new(225, false, 2).unwrap();
    let s = Money::checked_add(a, b).unwrap();
    assert_eq!(s.to_string(), "12.75");
    let c = Money::new(5, true, 1).unwrap();
    assert_eq!(Money::checked_add(a, c).unwrap().to_string(), "10.00");
    assert_eq!(Money::checked_add(Money::zero(), a).unwrap().to_string(), "10.50");
}

#[test]
fn money_sum_overflows() {
    let max = Money::new(0xFFFF_FFFF_FFFF_FFFF_FFFF_FFFF, false, 0).unwrap();
    assert!(Money::checked_add(max, max).is_none());
    let one = Money::new(1, false, 0).unwrap();
    assert!(Money::checked_add(max, one).is_none());
}
