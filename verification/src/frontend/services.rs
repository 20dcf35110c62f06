//! The frontend's account service: the data it sends and the choices of
//! account type and category it offers.

use vstd::prelude::*;
use crate::account_category::AccountCategory;
use crate::account_type::AccountType;
use crate::text::join;

pub use crate::commands::AccountViewModel;

verus! {

/// Data transfer object for creating and updating accounts.
pub struct AccountDto {
    pub code: String,
    pub name: String,
    pub description: Option<String>,
    pub account_type: String,
    pub category: String,
    pub subcategory: Option<String>,
    pub parent_id: Option<String>,
}

impl Default for AccountDto {
    /// An empty asset account in the current-asset category.
    fn default() -> (r: AccountDto)
        ensures
            r.code@.len() == 0,
            r.name@.len() == 0,
            r.description is None,
            r.account_type@ == AccountType::Asset.name(),
            r.category@ == AccountCategory::CurrentAsset.name(),
            r.subcategory is None,
            r.parent_id is None,
    {
        AccountDto {
            code: String::new(),
            name: String::new(),
            description: None,
            account_type: "ASSET".to_owned(),
            category: "CURRENT_ASSET".to_owned(),
            subcategory: None,
            parent_id: None,
        }
    }
}

/// A backend command that the account service calls, as its failure
/// messages name it.
#[derive(Clone, Copy, Debug, PartialEq, Eq, Structural)]
pub enum AccountCall {
    FetchAccounts,
    FetchAccount,
    CreateAccount,
    UpdateAccount,
    DeleteAccount,
    ToggleStatus,
    FetchRootAccounts,
    FetchChildAccounts,
}

impl AccountCall {
    /// The text put before the backend's error when the call fails.
    pub open spec fn failure_prefix(self) -> Seq<char> {
        match self {
            AccountCall::FetchAccounts => "Failed to fetch accounts: "@,
            AccountCall::FetchAccount => "Failed to fetch account: "@,
            AccountCall::CreateAccount => "Failed to create account: "@,
            AccountCall::UpdateAccount => "Failed to update account: "@,
            AccountCall::DeleteAccount => "Failed to delete account: "@,
            AccountCall::ToggleStatus => "Failed to toggle account status: "@,
            AccountCall::FetchRootAccounts => "Failed to fetch root accounts: "@,
            AccountCall::FetchChildAccounts => "Failed to fetch child accounts: "@,
        }
    }

    /// The text put before the backend's error when the call fails.
    pub fn prefix(&self) -> (r: &'static str)
        ensures
            r@ == self.failure_prefix(),
    {
        match self {
            AccountCall::FetchAccounts => "Failed to fetch accounts: ",
            AccountCall::FetchAccount => "Failed to fetch account: ",
            AccountCall::CreateAccount => "Failed to create account: ",
            AccountCall::UpdateAccount => "Failed to update account: ",
            AccountCall::DeleteAccount => "Failed to delete account: ",
            AccountCall::ToggleStatus => "Failed to toggle account status: ",
            AccountCall::FetchRootAccounts => "Failed to fetch root accounts: ",
            AccountCall::FetchChildAccounts => "Failed to fetch child accounts: ",
        }
    }

    /// The message shown when the call fails with the backend's `error`: the
    /// call's prefix followed by the error.
    pub fn failure_message(&self, error: &str) -> (r: String)
        ensures
            r@ == self.failure_prefix() + error@,
    {
        join(self.prefix(), error)
    }
}

/// The names of a list of texts.
pub open spec fn texts(v: Seq<&str>) -> Seq<Seq<char>> {
    v.map_values(|s: &str| s@)
}

/// The account types offered, by name, in order.
pub open spec fn account_type_names() -> Seq<Seq<char>> {
    seq![
        AccountType::Asset.name(),
        AccountType::Liability.name(),
        AccountType::Equity.name(),
        AccountType::Revenue.name(),
        AccountType::Expense.name(),
    ]
}

/// The categories offered for the type named exactly `account_type`, by
/// name, in order: those of that type, or none for any other text.
pub open spec fn category_names_for(account_type: Seq<char>) -> Seq<Seq<char>> {
    match AccountType::from_name(account_type) {
        Some(t) => AccountCategory::of_type(t).map_values(|c: AccountCategory| c.name()),
        None => Seq::empty(),
    }
}

/// Gets the available account types.
pub fn get_account_types() -> (r: Vec<&'static str>)
    ensures
        texts(r@) == account_type_names(),
{
    let r = vec!["ASSET", "LIABILITY", "EQUITY", "REVENUE", "EXPENSE"];
    assert(texts(r@) =~= account_type_names());
    r
}

/// Gets the available categories for a given account type (named exactly,
/// in upper case).
pub fn get_categories_for_type(account_type: &str) -> (r: Vec<&'static str>)
    ensures
        texts(r@) == category_names_for(account_type@),
{
    let r = match AccountType::from_upper(account_type) {
        Some(AccountType::Asset) => vec!["CURRENT_ASSET", "FIXED_ASSET", "OTHER_ASSET"],
        Some(AccountType::Liability) => vec![
            "CURRENT_LIABILITY",
            "LONG_TERM_LIABILITY",
            "OTHER_LIABILITY",
        ],
        Some(AccountType::Equity) => vec!["OWNER_EQUITY", "RETAINED_EARNINGS"],
        Some(AccountType::Revenue) => vec!["OPERATING_REVENUE", "NON_OPERATING_REVENUE"],
        Some(AccountType::Expense) => vec!["OPERATING_EXPENSE", "NON_OPERATING_EXPENSE"],
        None => vec![],
    };
    assert(texts(r@) =~= category_names_for(account_type@));
    r
}

/// Every type offered by the frontend is a type of the backend, and every
/// type of the backend is offered; the categories offered for a type are
/// named as the backend's categories of that type.
pub proof fn lemma_offered_types_match(t: AccountType)
    ensures
        account_type_names().contains(t.name()),
        forall|i: int|
            0 <= i < account_type_names().len() ==> AccountType::from_name(
                #[trigger] account_type_names()[i],
            ) is Some,
        category_names_for(t.name()) == AccountCategory::of_type(t).map_values(
            |c: AccountCategory| c.name(),
        ),
{
    t.lemma_name();
    AccountType::Asset.lemma_name();
    AccountType::Liability.lemma_name();
    AccountType::Equity.lemma_name();
    AccountType::Revenue.lemma_name();
    AccountType::Expense.lemma_name();
    let names = account_type_names();
    match t {
        AccountType::Asset => assert(names[0] == t.name()),
        AccountType::Liability => assert(names[1] == t.name()),
        AccountType::Equity => assert(names[2] == t.name()),
        AccountType::Revenue => assert(names[3] == t.name()),
        AccountType::Expense => assert(names[4] == t.name()),
    }
}

} // verus!
