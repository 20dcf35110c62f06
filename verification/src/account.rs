//! The account domain model, the database row it is stored as, and the data
//! needed to open a new account.

use vstd::prelude::*;
use crate::account_category::AccountCategory;
use crate::account_type::AccountType;
use crate::ids::new_random_uuid;
use crate::money::Money;
use crate::text::uppercase_of;
use crate::time::Timestamp;

verus! {

/// An independent copy of an optional text.
pub fn copy_text(o: &Option<String>) -> (r: Option<String>)
    ensures
        r.deep_view() == o.deep_view(),
{
    match o {
        Some(s) => Some(s.clone()),
        None => None,
    }
}

/// An account of the chart of accounts.
pub struct Account {
    pub id: u128,
    pub code: String,
    pub name: String,
    pub description: Option<String>,
    pub account_type: AccountType,
    pub category: AccountCategory,
    pub subcategory: Option<String>,
    pub is_active: bool,
    pub parent_id: Option<u128>,
    pub balance: Money,
    pub created_at: Timestamp,
    pub updated_at: Timestamp,
}

/// The contents of an account, with its texts as character sequences.
pub struct AccountView {
    pub id: u128,
    pub code: Seq<char>,
    pub name: Seq<char>,
    pub description: Option<Seq<char>>,
    pub account_type: AccountType,
    pub category: AccountCategory,
    pub subcategory: Option<Seq<char>>,
    pub is_active: bool,
    pub parent_id: Option<u128>,
    pub balance: Money,
    pub created_at: Timestamp,
    pub updated_at: Timestamp,
}

impl View for Account {
    type V = AccountView;

    open spec fn view(&self) -> AccountView {
        AccountView {
            id: self.id,
            code: self.code@,
            name: self.name@,
            description: self.description.deep_view(),
            account_type: self.account_type,
            category: self.category,
            subcategory: self.subcategory.deep_view(),
            is_active: self.is_active,
            parent_id: self.parent_id,
            balance: self.balance,
            created_at: self.created_at,
            updated_at: self.updated_at,
        }
    }
}

/// A database row of the accounts table: the account with its type and
/// category stored as text.
pub struct AccountDto {
    pub id: u128,
    pub code: String,
    pub name: String,
    pub description: Option<String>,
    pub account_type: String,
    pub category: String,
    pub subcategory: Option<String>,
    pub is_active: bool,
    pub parent_id: Option<u128>,
    pub balance: Money,
    pub created_at: Timestamp,
    pub updated_at: Timestamp,
}

/// The contents of a row, with its texts as character sequences.
pub struct AccountDtoView {
    pub id: u128,
    pub code: Seq<char>,
    pub name: Seq<char>,
    pub description: Option<Seq<char>>,
    pub account_type: Seq<char>,
    pub category: Seq<char>,
    pub subcategory: Option<Seq<char>>,
    pub is_active: bool,
    pub parent_id: Option<u128>,
    pub balance: Money,
    pub created_at: Timestamp,
    pub updated_at: Timestamp,
}

impl View for AccountDto {
    type V = AccountDtoView;

    open spec fn view(&self) -> AccountDtoView {
        AccountDtoView {
            id: self.id,
            code: self.code@,
            name: self.name@,
            description: self.description.deep_view(),
            account_type: self.account_type@,
            category: self.category@,
            subcategory: self.subcategory.deep_view(),
            is_active: self.is_active,
            parent_id: self.parent_id,
            balance: self.balance,
            created_at: self.created_at,
            updated_at: self.updated_at,
        }
    }
}

/// What is needed to open an account.
pub struct NewAccount {
    pub code: String,
    pub name: String,
    pub description: Option<String>,
    pub account_type: AccountType,
    pub category: AccountCategory,
    pub subcategory: Option<String>,
    pub parent_id: Option<u128>,
}

/// The contents of a request to open an account.
pub struct NewAccountView {
    pub code: Seq<char>,
    pub name: Seq<char>,
    pub description: Option<Seq<char>>,
    pub account_type: AccountType,
    pub category: AccountCategory,
    pub subcategory: Option<Seq<char>>,
    pub parent_id: Option<u128>,
}

impl View for NewAccount {
    type V = NewAccountView;

    open spec fn view(&self) -> NewAccountView {
        NewAccountView {
            code: self.code@,
            name: self.name@,
            description: self.description.deep_view(),
            account_type: self.account_type,
            category: self.category,
            subcategory: self.subcategory.deep_view(),
            parent_id: self.parent_id,
        }
    }
}

/// The type stored as `text`, read case-insensitively; unknown texts read
/// as `Asset`.
pub open spec fn stored_type(text: Seq<char>) -> AccountType {
    match AccountType::from_name(uppercase_of(text)) {
        Some(t) => t,
        None => AccountType::Asset,
    }
}

/// The category stored as `text`, read case-insensitively; unknown texts
/// read as `CurrentAsset`.
pub open spec fn stored_category(text: Seq<char>) -> AccountCategory {
    match AccountCategory::from_name(uppercase_of(text)) {
        Some(c) => c,
        None => AccountCategory::CurrentAsset,
    }
}

impl AccountView {
    /// The row that stores an account with these contents.
    pub open spec fn row(self) -> AccountDtoView {
        AccountDtoView {
            id: self.id,
            code: self.code,
            name: self.name,
            description: self.description,
            account_type: self.account_type.name(),
            category: self.category.name(),
            subcategory: self.subcategory,
            is_active: self.is_active,
            parent_id: self.parent_id,
            balance: self.balance,
            created_at: self.created_at,
            updated_at: self.updated_at,
        }
    }

    /// The account that a row with these contents reads as.
    pub open spec fn from_row(row: AccountDtoView) -> AccountView {
        AccountView {
            id: row.id,
            code: row.code,
            name: row.name,
            description: row.description,
            account_type: stored_type(row.account_type),
            category: stored_category(row.category),
            subcategory: row.subcategory,
            is_active: row.is_active,
            parent_id: row.parent_id,
            balance: row.balance,
            created_at: row.created_at,
            updated_at: row.updated_at,
        }
    }

    /// The account opened from `new` with identifier `id` at time `now`:
    /// active, with a zero balance, created and updated at `now`.
    pub open spec fn opened(new: NewAccountView, id: u128, now: Timestamp) -> AccountView {
        AccountView {
            id: id,
            code: new.code,
            name: new.name,
            description: new.description,
            account_type: new.account_type,
            category: new.category,
            subcategory: new.subcategory,
            is_active: true,
            parent_id: new.parent_id,
            balance: Money::zero_value(),
            created_at: now,
            updated_at: now,
        }
    }
}

impl Account {
    /// Opens an account with the given identifier at the given time: active,
    /// with a zero balance, created and updated at `now`.
    pub fn open(new_account: NewAccount, id: u128, now: Timestamp) -> (r: Account)
        ensures
            r@ == AccountView::opened(new_account@, id, now),
    {
        Account {
            id,
            code: new_account.code,
            name: new_account.name,
            description: new_account.description,
            account_type: new_account.account_type,
            category: new_account.category,
            subcategory: new_account.subcategory,
            is_active: true,
            parent_id: new_account.parent_id,
            balance: Money::zero(),
            created_at: now,
            updated_at: now,
        }
    }

    /// Creates a new account with a fresh random (version 4) identifier and
    /// the current time as its creation and update time.
    pub fn new(new_account: NewAccount) -> (r: Account)
        ensures
            r@ == AccountView::opened(new_account@, r.id, r.created_at),
            (r.id >> 76u128) & 0xfu128 == 4,
            (r.id >> 62u128) & 3u128 == 2,
    {
        let now = Timestamp::now();
        let id: u128 = new_random_uuid();
        Account::open(new_account, id, now)
    }

    /// Whether the account normally carries a debit balance.
    pub fn is_debit_normal(&self) -> (r: bool)
        ensures
            r == self.account_type.debit_normal(),
    {
        self.account_type.is_debit_normal()
    }

    /// Whether the account normally carries a credit balance.
    pub fn is_credit_normal(&self) -> (r: bool)
        ensures
            r == self.account_type.credit_normal(),
    {
        self.account_type.is_credit_normal()
    }

    /// Adds `amount` to the balance and stamps the update with the time
    /// `now`; every other field is kept. The sum must not overflow (`Decimal`
    /// addition panics then).
    pub fn update_balance_at(&mut self, amount: Money, now: Timestamp)
        requires
            Money::sum(old(self).balance, amount) is Some,
        ensures
            ({
                let s = Money::sum(old(self).balance, amount)->Some_0;
                &&& final(self).balance.spec_magnitude() == s.0
                &&& final(self).balance.spec_negative() == s.1
                &&& final(self).balance.spec_scale() == s.2
            }),
            final(self)@ == (AccountView {
                balance: final(self).balance,
                updated_at: now,
                ..old(self)@
            }),
    {
        match Money::checked_add(self.balance, amount) {
            Some(sum) => {
                self.balance = sum;
                self.updated_at = now;
            },
            None => {},
        }
    }

    /// Adds `amount` to the balance and stamps the update with the current
    /// time (`Utc::now`), as `update_balance_at` does with that time. The sum
    /// must not overflow (`Decimal` addition panics then).
    pub fn update_balance(&mut self, amount: Money)
        requires
            Money::sum(old(self).balance, amount) is Some,
        ensures
            ({
                let s = Money::sum(old(self).balance, amount)->Some_0;
                &&& final(self).balance.spec_magnitude() == s.0
                &&& final(self).balance.spec_negative() == s.1
                &&& final(self).balance.spec_scale() == s.2
            }),
            final(self)@ == (AccountView {
                balance: final(self).balance,
                updated_at: final(self).updated_at,
                ..old(self)@
            }),
    {
        let now = Timestamp::now();
        self.update_balance_at(amount, now);
    }

    /// Adds `amount` to the balance at time `now` when the sum does not
    /// overflow, as `update_balance_at` does, and reports whether it did; on
    /// overflow the account is left unchanged.
    pub fn try_update_balance_at(&mut self, amount: Money, now: Timestamp) -> (r: bool)
        ensures
            r == (Money::sum(old(self).balance, amount) is Some),
            r ==> ({
                let s = Money::sum(old(self).balance, amount)->Some_0;
                &&& final(self).balance.spec_magnitude() == s.0
                &&& final(self).balance.spec_negative() == s.1
                &&& final(self).balance.spec_scale() == s.2
                &&& final(self)@ == (AccountView {
                    balance: final(self).balance,
                    updated_at: now,
                    ..old(self)@
                })
            }),
            !r ==> final(self)@ == old(self)@,
    {
        match Money::checked_add(self.balance, amount) {
            Some(sum) => {
                self.balance = sum;
                self.updated_at = now;
                true
            },
            None => false,
        }
    }

    /// Adds `amount` to the balance when the sum does not overflow, as
    /// `update_balance` does, and reports whether it did; on overflow the
    /// account is left unchanged.
    pub fn try_update_balance(&mut self, amount: Money) -> (r: bool)
        ensures
            r == (Money::sum(old(self).balance, amount) is Some),
            r ==> ({
                let s = Money::sum(old(self).balance, amount)->Some_0;
                &&& final(self).balance.spec_magnitude() == s.0
                &&& final(self).balance.spec_negative() == s.1
                &&& final(self).balance.spec_scale() == s.2
                &&& final(self)@ == (AccountView {
                    balance: final(self).balance,
                    updated_at: final(self).updated_at,
                    ..old(self)@
                })
            }),
            !r ==> final(self)@ == old(self)@,
    {
        match Money::checked_add(self.balance, amount) {
            Some(_) => {
                self.update_balance(amount);
                true
            },
            None => false,
        }
    }

    /// Reads an account from its database row. The type and category are
    /// parsed case-insensitively; unknown texts read as `Asset` and
    /// `CurrentAsset`. A row written for an account reads back as that
    /// account.
    pub fn from_dto(dto: AccountDto) -> (r: Account)
        ensures
            r@ == AccountView::from_row(dto@),
            forall|a: AccountView| dto@ == #[trigger] a.row() ==> r@ == a,
    {
        let account_type = match AccountType::from_str(dto.account_type.as_str()) {
            Some(t) => t,
            None => AccountType::Asset,
        };
        let category = match AccountCategory::from_str(dto.category.as_str()) {
            Some(c) => c,
            None => AccountCategory::CurrentAsset,
        };
        let r = Account {
            id: dto.id,
            code: dto.code,
            name: dto.name,
            description: dto.description,
            account_type,
            category,
            subcategory: dto.subcategory,
            is_active: dto.is_active,
            parent_id: dto.parent_id,
            balance: dto.balance,
            created_at: dto.created_at,
            updated_at: dto.updated_at,
        };
        r
    }

    /// An independent copy of the account.
    pub fn duplicate(&self) -> (r: Account)
        ensures
            r@ == self@,
    {
        Account {
            id: self.id,
            code: self.code.clone(),
            name: self.name.clone(),
            description: copy_text(&self.description),
            account_type: self.account_type,
            category: self.category,
            subcategory: copy_text(&self.subcategory),
            is_active: self.is_active,
            parent_id: self.parent_id,
            balance: self.balance,
            created_at: self.created_at,
            updated_at: self.updated_at,
        }
    }
}

impl AccountDto {
    /// The database row that stores an account: the type and category are
    /// written as their names.
    pub fn from_account(account: Account) -> (r: AccountDto)
        ensures
            r@ == account@.row(),
    {
        let account_type = account.account_type.to_string();
        let category = account.category.to_string();
        AccountDto {
            id: account.id,
            code: account.code,
            name: account.name,
            description: account.description,
            account_type,
            category,
            subcategory: account.subcategory,
            is_active: account.is_active,
            parent_id: account.parent_id,
            balance: account.balance,
            created_at: account.created_at,
            updated_at: account.updated_at,
        }
    }
}

} // verus!
