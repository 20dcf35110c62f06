//! Account categories: the primary grouping of accounts inside each type.

use vstd::prelude::*;
use crate::account_type::AccountType;
use crate::text::{ascii_upper, is_ascii_text, str_equal, to_upper, uppercase_of};

verus! {

/// Categories of accounts; each belongs to exactly one account type.
#[derive(Clone, Copy, Debug, PartialEq, Eq, Structural)]
pub enum AccountCategory {
    // Asset categories
    CurrentAsset,
    FixedAsset,
    OtherAsset,
    // Liability categories
    CurrentLiability,
    LongTermLiability,
    OtherLiability,
    // Equity categories
    OwnerEquity,
    RetainedEarnings,
    // Revenue categories
    OperatingRevenue,
    NonOperatingRevenue,
    // Expense categories
    OperatingExpense,
    NonOperatingExpense,
}

impl AccountCategory {
    /// The text under which a category is shown and stored.
    pub open spec fn name(self) -> Seq<char> {
        match self {
            AccountCategory::CurrentAsset => "CURRENT_ASSET"@,
            AccountCategory::FixedAsset => "FIXED_ASSET"@,
            AccountCategory::OtherAsset => "OTHER_ASSET"@,
            AccountCategory::CurrentLiability => "CURRENT_LIABILITY"@,
            AccountCategory::LongTermLiability => "LONG_TERM_LIABILITY"@,
            AccountCategory::OtherLiability => "OTHER_LIABILITY"@,
            AccountCategory::OwnerEquity => "OWNER_EQUITY"@,
            AccountCategory::RetainedEarnings => "RETAINED_EARNINGS"@,
            AccountCategory::OperatingRevenue => "OPERATING_REVENUE"@,
            AccountCategory::NonOperatingRevenue => "NON_OPERATING_REVENUE"@,
            AccountCategory::OperatingExpense => "OPERATING_EXPENSE"@,
            AccountCategory::NonOperatingExpense => "NON_OPERATING_EXPENSE"@,
        }
    }

    /// The account type a category belongs to.
    pub open spec fn account_type(self) -> AccountType {
        match self {
            AccountCategory::CurrentAsset => AccountType::Asset,
            AccountCategory::FixedAsset => AccountType::Asset,
            AccountCategory::OtherAsset => AccountType::Asset,
            AccountCategory::CurrentLiability => AccountType::Liability,
            AccountCategory::LongTermLiability => AccountType::Liability,
            AccountCategory::OtherLiability => AccountType::Liability,
            AccountCategory::OwnerEquity => AccountType::Equity,
            AccountCategory::RetainedEarnings => AccountType::Equity,
            AccountCategory::OperatingRevenue => AccountType::Revenue,
            AccountCategory::NonOperatingRevenue => AccountType::Revenue,
            AccountCategory::OperatingExpense => AccountType::Expense,
            AccountCategory::NonOperatingExpense => AccountType::Expense,
        }
    }

    /// The category whose name is exactly `s`, if any.
    pub open spec fn from_name(s: Seq<char>) -> Option<AccountCategory> {
        if s == "CURRENT_ASSET"@ {
            Some(AccountCategory::CurrentAsset)
        } else if s == "FIXED_ASSET"@ {
            Some(AccountCategory::FixedAsset)
        } else if s == "OTHER_ASSET"@ {
            Some(AccountCategory::OtherAsset)
        } else if s == "CURRENT_LIABILITY"@ {
            Some(AccountCategory::CurrentLiability)
        } else if s == "LONG_TERM_LIABILITY"@ {
            Some(AccountCategory::LongTermLiability)
        } else if s == "OTHER_LIABILITY"@ {
            Some(AccountCategory::OtherLiability)
        } else if s == "OWNER_EQUITY"@ {
            Some(AccountCategory::OwnerEquity)
        } else if s == "RETAINED_EARNINGS"@ {
            Some(AccountCategory::RetainedEarnings)
        } else if s == "OPERATING_REVENUE"@ {
            Some(AccountCategory::OperatingRevenue)
        } else if s == "NON_OPERATING_REVENUE"@ {
            Some(AccountCategory::NonOperatingRevenue)
        } else if s == "OPERATING_EXPENSE"@ {
            Some(AccountCategory::OperatingExpense)
        } else if s == "NON_OPERATING_EXPENSE"@ {
            Some(AccountCategory::NonOperatingExpense)
        } else {
            None
        }
    }

    /// The categories offered for a type, in the order they are listed.
    pub open spec fn of_type(t: AccountType) -> Seq<AccountCategory> {
        match t {
            AccountType::Asset => seq![AccountCategory::CurrentAsset, AccountCategory::FixedAsset, AccountCategory::OtherAsset],
            AccountType::Liability => seq![AccountCategory::CurrentLiability, AccountCategory::LongTermLiability, AccountCategory::OtherLiability],
            AccountType::Equity => seq![AccountCategory::OwnerEquity, AccountCategory::RetainedEarnings],
            AccountType::Revenue => seq![AccountCategory::OperatingRevenue, AccountCategory::NonOperatingRevenue],
            AccountType::Expense => seq![AccountCategory::OperatingExpense, AccountCategory::NonOperatingExpense],
        }
    }

    /// The name of every category is ASCII, already upper case, and parses
    /// back to the category.
    pub proof fn lemma_name(self)
        ensures
            is_ascii_text(self.name()),
            ascii_upper(self.name()) == self.name(),
            AccountCategory::from_name(self.name()) == Some(self),
    {
        reveal_strlit("CURRENT_ASSET");
        reveal_strlit("FIXED_ASSET");
        reveal_strlit("OTHER_ASSET");
        reveal_strlit("CURRENT_LIABILITY");
        reveal_strlit("LONG_TERM_LIABILITY");
        reveal_strlit("OTHER_LIABILITY");
        reveal_strlit("OWNER_EQUITY");
        reveal_strlit("RETAINED_EARNINGS");
        reveal_strlit("OPERATING_REVENUE");
        reveal_strlit("NON_OPERATING_REVENUE");
        reveal_strlit("OPERATING_EXPENSE");
        reveal_strlit("NON_OPERATING_EXPENSE");
        assert("FIXED_ASSET"@[0] != "OTHER_ASSET"@[0]);
        assert("CURRENT_LIABILITY"@[0] != "RETAINED_EARNINGS"@[0]);
        assert("CURRENT_LIABILITY"@[0] != "OPERATING_REVENUE"@[0]);
        assert("CURRENT_LIABILITY"@[0] != "OPERATING_EXPENSE"@[0]);
        assert("RETAINED_EARNINGS"@[0] != "OPERATING_REVENUE"@[0]);
        assert("RETAINED_EARNINGS"@[0] != "OPERATING_EXPENSE"@[0]);
        assert("OPERATING_REVENUE"@[10] != "OPERATING_EXPENSE"@[10]);
        assert("NON_OPERATING_REVENUE"@[14] != "NON_OPERATING_EXPENSE"@[14]);
        assert(ascii_upper(self.name()) =~= self.name());
    }

    /// The text of the category, as shown to users and stored in the database.
    pub fn to_string(&self) -> (r: String)
        ensures
            r@ == self.name(),
    {
        match self {
            AccountCategory::CurrentAsset => "CURRENT_ASSET".to_owned(),
            AccountCategory::FixedAsset => "FIXED_ASSET".to_owned(),
            AccountCategory::OtherAsset => "OTHER_ASSET".to_owned(),
            AccountCategory::CurrentLiability => "CURRENT_LIABILITY".to_owned(),
            AccountCategory::LongTermLiability => "LONG_TERM_LIABILITY".to_owned(),
            AccountCategory::OtherLiability => "OTHER_LIABILITY".to_owned(),
            AccountCategory::OwnerEquity => "OWNER_EQUITY".to_owned(),
            AccountCategory::RetainedEarnings => "RETAINED_EARNINGS".to_owned(),
            AccountCategory::OperatingRevenue => "OPERATING_REVENUE".to_owned(),
            AccountCategory::NonOperatingRevenue => "NON_OPERATING_REVENUE".to_owned(),
            AccountCategory::OperatingExpense => "OPERATING_EXPENSE".to_owned(),
            AccountCategory::NonOperatingExpense => "NON_OPERATING_EXPENSE".to_owned(),
        }
    }

    /// The category whose name is exactly `s` (no case conversion).
    pub fn from_upper(s: &str) -> (r: Option<AccountCategory>)
        ensures
            r == AccountCategory::from_name(s@),
    {
        if str_equal(s, "CURRENT_ASSET") {
            Some(AccountCategory::CurrentAsset)
        } else if str_equal(s, "FIXED_ASSET") {
            Some(AccountCategory::FixedAsset)
        } else if str_equal(s, "OTHER_ASSET") {
            Some(AccountCategory::OtherAsset)
        } else if str_equal(s, "CURRENT_LIABILITY") {
            Some(AccountCategory::CurrentLiability)
        } else if str_equal(s, "LONG_TERM_LIABILITY") {
            Some(AccountCategory::LongTermLiability)
        } else if str_equal(s, "OTHER_LIABILITY") {
            Some(AccountCategory::OtherLiability)
        } else if str_equal(s, "OWNER_EQUITY") {
            Some(AccountCategory::OwnerEquity)
        } else if str_equal(s, "RETAINED_EARNINGS") {
            Some(AccountCategory::RetainedEarnings)
        } else if str_equal(s, "OPERATING_REVENUE") {
            Some(AccountCategory::OperatingRevenue)
        } else if str_equal(s, "NON_OPERATING_REVENUE") {
            Some(AccountCategory::NonOperatingRevenue)
        } else if str_equal(s, "OPERATING_EXPENSE") {
            Some(AccountCategory::OperatingExpense)
        } else if str_equal(s, "NON_OPERATING_EXPENSE") {
            Some(AccountCategory::NonOperatingExpense)
        } else {
            None
        }
    }

    /// Parses a category name, ignoring case: the text is upper-cased and
    /// then compared with the category names. The name of every category
    /// parses back to that category.
    pub fn from_str(s: &str) -> (r: Option<AccountCategory>)
        ensures
            r == AccountCategory::from_name(uppercase_of(s@)),
            is_ascii_text(s@) ==> r == AccountCategory::from_name(ascii_upper(s@)),
            forall|c: AccountCategory| s@ == #[trigger] c.name() ==> r == Some(c),
    {
        let upper = to_upper(s);
        let r = AccountCategory::from_upper(upper.as_str());
        assert forall|c: AccountCategory| s@ == #[trigger] c.name() implies r == Some(c) by {
            c.lemma_name();
        }
        r
    }

    /// The categories appropriate for a given account type.
    pub fn for_account_type(account_type: AccountType) -> (r: Vec<AccountCategory>)
        ensures
            r@ == AccountCategory::of_type(account_type),
    {
        match account_type {
            AccountType::Asset => vec![AccountCategory::CurrentAsset, AccountCategory::FixedAsset, AccountCategory::OtherAsset],
            AccountType::Liability => vec![AccountCategory::CurrentLiability, AccountCategory::LongTermLiability, AccountCategory::OtherLiability],
            AccountType::Equity => vec![AccountCategory::OwnerEquity, AccountCategory::RetainedEarnings],
            AccountType::Revenue => vec![AccountCategory::OperatingRevenue, AccountCategory::NonOperatingRevenue],
            AccountType::Expense => vec![AccountCategory::OperatingExpense, AccountCategory::NonOperatingExpense],
        }
    }
}

/// The categories offered for a type are exactly the categories that belong
/// to it, each listed once.
pub proof fn lemma_categories_partition(t: AccountType, c: AccountCategory)
    ensures
        AccountCategory::of_type(t).contains(c) <==> c.account_type() == t,
        AccountCategory::of_type(t).no_duplicates(),
{
    let s = AccountCategory::of_type(t);
    if c.account_type() == t {
        match c {
            AccountCategory::CurrentAsset => assert(s[0] == c),
            AccountCategory::FixedAsset => assert(s[1] == c),
            AccountCategory::OtherAsset => assert(s[2] == c),
            AccountCategory::CurrentLiability => assert(s[0] == c),
            AccountCategory::LongTermLiability => assert(s[1] == c),
            AccountCategory::OtherLiability => assert(s[2] == c),
            AccountCategory::OwnerEquity => assert(s[0] == c),
            AccountCategory::RetainedEarnings => assert(s[1] == c),
            AccountCategory::OperatingRevenue => assert(s[0] == c),
            AccountCategory::NonOperatingRevenue => assert(s[1] == c),
            AccountCategory::OperatingExpense => assert(s[0] == c),
            AccountCategory::NonOperatingExpense => assert(s[1] == c),
        }
    }
}

/// Distinct categories have distinct names.
pub proof fn lemma_category_names_distinct(a: AccountCategory, b: AccountCategory)
    ensures
        a != b ==> a.name() != b.name(),
{
    a.lemma_name();
    b.lemma_name();
}

} // verus!
