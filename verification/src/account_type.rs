//! Account types of the chart of accounts and their text encoding.

use vstd::prelude::*;
use crate::text::{ascii_upper, is_ascii_text, str_equal, to_upper, uppercase_of};

verus! {

/// The five types of account in a chart of accounts.
#[derive(Clone, Copy, Debug, PartialEq, Eq, Structural)]
pub enum AccountType {
    Asset,
    Liability,
    Equity,
    Revenue,
    Expense,
}

impl AccountType {
    /// The text under which a type is shown and stored.
    pub open spec fn name(self) -> Seq<char> {
        match self {
            AccountType::Asset => "ASSET"@,
            AccountType::Liability => "LIABILITY"@,
            AccountType::Equity => "EQUITY"@,
            AccountType::Revenue => "REVENUE"@,
            AccountType::Expense => "EXPENSE"@,
        }
    }

    /// The type whose name is exactly `s`, if any.
    pub open spec fn from_name(s: Seq<char>) -> Option<AccountType> {
        if s == "ASSET"@ {
            Some(AccountType::Asset)
        } else if s == "LIABILITY"@ {
            Some(AccountType::Liability)
        } else if s == "EQUITY"@ {
            Some(AccountType::Equity)
        } else if s == "REVENUE"@ {
            Some(AccountType::Revenue)
        } else if s == "EXPENSE"@ {
            Some(AccountType::Expense)
        } else {
            None
        }
    }

    /// Debit-normal types: assets and expenses.
    pub open spec fn debit_normal(self) -> bool {
        self is Asset || self is Expense
    }

    /// Credit-normal types: liabilities, equity and revenue.
    pub open spec fn credit_normal(self) -> bool {
        self is Liability || self is Equity || self is Revenue
    }

    /// The name of every type is ASCII, already upper case, and parses back
    /// to the type.
    pub proof fn lemma_name(self)
        ensures
            is_ascii_text(self.name()),
            ascii_upper(self.name()) == self.name(),
            AccountType::from_name(self.name()) == Some(self),
    {
        reveal_strlit("ASSET");
        reveal_strlit("LIABILITY");
        reveal_strlit("EQUITY");
        reveal_strlit("REVENUE");
        reveal_strlit("EXPENSE");
        assert("REVENUE"@[0] != "EXPENSE"@[0]);
        assert(ascii_upper(self.name()) =~= self.name());
    }

    /// The text of the type, as shown to users and stored in the database.
    pub fn to_string(&self) -> (r: String)
        ensures
            r@ == self.name(),
    {
        match self {
            AccountType::Asset => "ASSET".to_owned(),
            AccountType::Liability => "LIABILITY".to_owned(),
            AccountType::Equity => "EQUITY".to_owned(),
            AccountType::Revenue => "REVENUE".to_owned(),
            AccountType::Expense => "EXPENSE".to_owned(),
        }
    }

    /// The type whose name is exactly `s` (no case conversion).
    pub fn from_upper(s: &str) -> (r: Option<AccountType>)
        ensures
            r == AccountType::from_name(s@),
    {
        if str_equal(s, "ASSET") {
            Some(AccountType::Asset)
        } else if str_equal(s, "LIABILITY") {
            Some(AccountType::Liability)
        } else if str_equal(s, "EQUITY") {
            Some(AccountType::Equity)
        } else if str_equal(s, "REVENUE") {
            Some(AccountType::Revenue)
        } else if str_equal(s, "EXPENSE") {
            Some(AccountType::Expense)
        } else {
            None
        }
    }

    /// Parses a type name, ignoring case: the text is upper-cased and then
    /// compared with the type names. The name of every type parses back to
    /// that type.
    pub fn from_str(s: &str) -> (r: Option<AccountType>)
        ensures
            r == AccountType::from_name(uppercase_of(s@)),
            is_ascii_text(s@) ==> r == AccountType::from_name(ascii_upper(s@)),
            forall|t: AccountType| s@ == #[trigger] t.name() ==> r == Some(t),
    {
        let upper = to_upper(s);
        let r = AccountType::from_upper(upper.as_str());
        assert forall|t: AccountType| s@ == #[trigger] t.name() implies r == Some(t) by {
            t.lemma_name();
        }
        r
    }

    /// Whether accounts of this type normally carry a debit balance.
    pub fn is_debit_normal(&self) -> (r: bool)
        ensures
            r == self.debit_normal(),
    {
        matches!(self, AccountType::Asset | AccountType::Expense)
    }

    /// Whether accounts of this type normally carry a credit balance.
    pub fn is_credit_normal(&self) -> (r: bool)
        ensures
            r == self.credit_normal(),
    {
        matches!(self, AccountType::Liability | AccountType::Equity | AccountType::Revenue)
    }
}

/// Every account type is normally on exactly one side: debit or credit.
pub proof fn lemma_normal_side_is_unique(t: AccountType)
    ensures
        t.debit_normal() != t.credit_normal(),
{
}

/// Distinct types have distinct names.
pub proof fn lemma_type_names_distinct(a: AccountType, b: AccountType)
    ensures
        a != b ==> a.name() != b.name(),
{
    a.lemma_name();
    b.lemma_name();
}

} // verus!
