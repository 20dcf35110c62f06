//! The chart-of-accounts page: its state, how it reacts to the user and to
//! the backend, and what it shows.

use vstd::prelude::*;
pub use crate::commands::AccountViewModel;
use crate::commands::AccountViewModelView;
use crate::frontend::services::{
    category_names_for, get_account_types, get_categories_for_type, texts,
    account_type_names, AccountCall,
};

verus! {

/// The account being entered in the page's form.
pub struct NewAccountModel {
    pub code: String,
    pub name: String,
    pub description: Option<String>,
    pub account_type: String,
    pub category: String,
    pub subcategory: Option<String>,
    pub parent_id: Option<String>,
}

/// The contents of the form.
pub struct NewAccountModelView {
    pub code: Seq<char>,
    pub name: Seq<char>,
    pub description: Option<Seq<char>>,
    pub account_type: Seq<char>,
    pub category: Seq<char>,
    pub subcategory: Option<Seq<char>>,
    pub parent_id: Option<Seq<char>>,
}

impl View for NewAccountModel {
    type V = NewAccountModelView;

    open spec fn view(&self) -> NewAccountModelView {
        NewAccountModelView {
            code: self.code@,
            name: self.name@,
            description: self.description.deep_view(),
            account_type: self.account_type@,
            category: self.category@,
            subcategory: self.subcategory.deep_view(),
            parent_id: self.parent_id.deep_view(),
        }
    }
}

/// An empty form: an asset account in the current-asset category.
pub open spec fn blank_model() -> NewAccountModelView {
    NewAccountModelView {
        code: Seq::empty(),
        name: Seq::empty(),
        description: None,
        account_type: "ASSET"@,
        category: "CURRENT_ASSET"@,
        subcategory: None,
        parent_id: None,
    }
}

impl NewAccountModel {
    /// An empty form.
    pub fn blank() -> (r: NewAccountModel)
        ensures
            r@ == blank_model(),
    {
        NewAccountModel {
            code: String::new(),
            name: String::new(),
            description: None,
            account_type: "ASSET".to_owned(),
            category: "CURRENT_ASSET".to_owned(),
            subcategory: None,
            parent_id: None,
        }
    }

    /// An independent copy of the form.
    pub fn duplicate(&self) -> (r: NewAccountModel)
        ensures
            r@ == self@,
    {
        NewAccountModel {
            code: self.code.clone(),
            name: self.name.clone(),
            description: crate::account::copy_text(&self.description),
            account_type: self.account_type.clone(),
            category: self.category.clone(),
            subcategory: crate::account::copy_text(&self.subcategory),
            parent_id: crate::account::copy_text(&self.parent_id),
        }
    }
}

/// The state of the page.
pub struct AccountsState {
    pub accounts: Vec<AccountViewModel>,
    pub error_message: Option<String>,
    pub is_loading: bool,
    pub show_form: bool,
    pub new_account: NewAccountModel,
}

/// The contents of the page's state.
pub struct AccountsStateView {
    pub accounts: Seq<AccountViewModelView>,
    pub error_message: Option<Seq<char>>,
    pub is_loading: bool,
    pub show_form: bool,
    pub new_account: NewAccountModelView,
}

impl View for AccountsState {
    type V = AccountsStateView;

    open spec fn view(&self) -> AccountsStateView {
        AccountsStateView {
            accounts: self.accounts@.map_values(|m: AccountViewModel| m@),
            error_message: self.error_message.deep_view(),
            is_loading: self.is_loading,
            show_form: self.show_form,
            new_account: self.new_account@,
        }
    }
}

/// What happens on the page: it is shown, the accounts arrive (or the
/// backend's error does), the form is submitted and answered, or the user
/// toggles and edits the form.
pub enum AccountsEvent {
    Mounted,
    Loaded(Result<Vec<AccountViewModel>, String>),
    Submitted,
    Created(Result<AccountViewModel, String>),
    FormToggled,
    CodeEntered(String),
    NameEntered(String),
    DescriptionEntered(String),
    TypeChosen(String),
    CategoryChosen(String),
}

/// Work the page hands to the backend.
pub enum AccountsTask {
    FetchAccounts,
    CreateAccount(NewAccountModel),
}

/// The contents of such work.
pub enum AccountsTaskView {
    FetchAccounts,
    CreateAccount(NewAccountModelView),
}

impl View for AccountsTask {
    type V = AccountsTaskView;

    open spec fn view(&self) -> AccountsTaskView {
        match self {
            AccountsTask::FetchAccounts => AccountsTaskView::FetchAccounts,
            AccountsTask::CreateAccount(m) => AccountsTaskView::CreateAccount(m@),
        }
    }
}

/// What the page shows below its form.
#[derive(Clone, Copy, Debug, PartialEq, Eq, Structural)]
pub enum AccountsBody {
    Loading,
    Empty,
    Table,
}

/// The category chosen along with a type: the first offered for it, or
/// none (empty text) for a type that offers none.
pub open spec fn default_category_for(account_type: Seq<char>) -> Seq<char> {
    if category_names_for(account_type).len() > 0 {
        category_names_for(account_type)[0]
    } else {
        Seq::empty()
    }
}

/// How the page reacts to an event: its next state and the work it hands
/// to the backend.
pub open spec fn page_transition(s: AccountsStateView, e: AccountsEvent) -> (
    AccountsStateView,
    Option<AccountsTaskView>,
) {
    match e {
        AccountsEvent::Mounted => (
            AccountsStateView { is_loading: true, ..s },
            Some(AccountsTaskView::FetchAccounts),
        ),
        AccountsEvent::Loaded(Ok(v)) => (
            AccountsStateView {
                accounts: v@.map_values(|m: AccountViewModel| m@),
                error_message: None,
                is_loading: false,
                ..s
            },
            None,
        ),
        AccountsEvent::Loaded(Err(m)) => (
            AccountsStateView {
                error_message: Some(AccountCall::FetchAccounts.failure_prefix() + m@),
                is_loading: false,
                ..s
            },
            None,
        ),
        AccountsEvent::Submitted => (
            AccountsStateView { is_loading: true, ..s },
            Some(AccountsTaskView::CreateAccount(s.new_account)),
        ),
        AccountsEvent::Created(Ok(a)) => (
            AccountsStateView {
                accounts: s.accounts.push(a@),
                error_message: None,
                is_loading: false,
                show_form: false,
                new_account: blank_model(),
            },
            None,
        ),
        AccountsEvent::Created(Err(m)) => (
            AccountsStateView {
                error_message: Some(AccountCall::CreateAccount.failure_prefix() + m@),
                is_loading: false,
                ..s
            },
            None,
        ),
        AccountsEvent::FormToggled => (AccountsStateView { show_form: !s.show_form, ..s }, None),
        AccountsEvent::CodeEntered(c) => (
            AccountsStateView {
                new_account: NewAccountModelView { code: c@, ..s.new_account },
                ..s
            },
            None,
        ),
        AccountsEvent::NameEntered(n) => (
            AccountsStateView {
                new_account: NewAccountModelView { name: n@, ..s.new_account },
                ..s
            },
            None,
        ),
        AccountsEvent::DescriptionEntered(d) => (
            AccountsStateView {
                new_account: NewAccountModelView {
                    description: if d@.len() == 0 { None } else { Some(d@) },
                    ..s.new_account
                },
                ..s
            },
            None,
        ),
        AccountsEvent::TypeChosen(t) => (
            AccountsStateView {
                new_account: NewAccountModelView {
                    account_type: t@,
                    category: default_category_for(t@),
                    ..s.new_account
                },
                ..s
            },
            None,
        ),
        AccountsEvent::CategoryChosen(c) => (
            AccountsStateView {
                new_account: NewAccountModelView { category: c@, ..s.new_account },
                ..s
            },
            None,
        ),
    }
}

/// The category chosen along with a type (see `default_category_for`).
pub fn default_category(account_type: &str) -> (r: String)
    ensures
        r@ == default_category_for(account_type@),
{
    let cats = get_categories_for_type(account_type);
    if cats.len() > 0 {
        cats[0].to_owned()
    } else {
        String::new()
    }
}

impl AccountsState {
    /// The page as first shown: loading, no accounts, no error, the form
    /// hidden and empty.
    pub fn new() -> (r: AccountsState)
        ensures
            r@.accounts.len() == 0,
            r@.error_message is None,
            r@.is_loading,
            !r@.show_form,
            r@.new_account == blank_model(),
    {
        let r = AccountsState {
            accounts: Vec::new(),
            error_message: None,
            is_loading: true,
            show_form: false,
            new_account: NewAccountModel::blank(),
        };
        assert(r@.accounts.len() == 0);
        r
    }

    /// Reacts to an event (see `page_transition`) and returns the work to
    /// hand to the backend, if any.
    pub fn handle(&mut self, event: AccountsEvent) -> (task: Option<AccountsTask>)
        ensures
            (final(self)@, match task {
                Some(t) => Some(t@),
                None => None::<AccountsTaskView>,
            }) == page_transition(old(self)@, event),
    {
        match event {
            AccountsEvent::Mounted => {
                self.is_loading = true;
                Some(AccountsTask::FetchAccounts)
            },
            AccountsEvent::Loaded(Ok(v)) => {
                self.accounts = v;
                self.error_message = None;
                self.is_loading = false;
                None
            },
            AccountsEvent::Loaded(Err(m)) => {
                self.error_message = Some(AccountCall::FetchAccounts.failure_message(&m));
                self.is_loading = false;
                None
            },
            AccountsEvent::Submitted => {
                self.is_loading = true;
                Some(AccountsTask::CreateAccount(self.new_account.duplicate()))
            },
            AccountsEvent::Created(Ok(a)) => {
                let ghost before = self.accounts@;
                self.accounts.push(a);
                assert(self.accounts@.map_values(|m: AccountViewModel| m@) =~= before.map_values(
                    |m: AccountViewModel| m@,
                ).push(self.accounts@.last()@));
                self.show_form = false;
                self.new_account = NewAccountModel::blank();
                self.error_message = None;
                self.is_loading = false;
                None
            },
            AccountsEvent::Created(Err(m)) => {
                self.error_message = Some(AccountCall::CreateAccount.failure_message(&m));
                self.is_loading = false;
                None
            },
            AccountsEvent::FormToggled => {
                self.show_form = !self.show_form;
                None
            },
            AccountsEvent::CodeEntered(c) => {
                self.new_account.code = c;
                None
            },
            AccountsEvent::NameEntered(n) => {
                self.new_account.name = n;
                None
            },
            AccountsEvent::DescriptionEntered(d) => {
                self.new_account.description = if d.as_str().is_empty() {
                    None
                } else {
                    Some(d)
                };
                None
            },
            AccountsEvent::TypeChosen(t) => {
                let category = default_category(t.as_str());
                self.new_account.account_type = t;
                self.new_account.category = category;
                None
            },
            AccountsEvent::CategoryChosen(c) => {
                self.new_account.category = c;
                None
            },
        }
    }

    /// The account types offered in the form.
    pub fn account_types(&self) -> (r: Vec<&'static str>)
        ensures
            texts(r@) == account_type_names(),
    {
        get_account_types()
    }

    /// The categories offered in the form for the type chosen.
    pub fn categories(&self) -> (r: Vec<&'static str>)
        ensures
            texts(r@) == category_names_for(self.new_account.account_type@),
    {
        get_categories_for_type(self.new_account.account_type.as_str())
    }

    /// What the page shows below the form: a loading notice while the
    /// first accounts are awaited, a notice when there are none, the table
    /// otherwise.
    pub fn body(&self) -> (r: AccountsBody)
        ensures
            r == (if self.is_loading && self.accounts@.len() == 0 {
                AccountsBody::Loading
            } else if self.accounts@.len() == 0 {
                AccountsBody::Empty
            } else {
                AccountsBody::Table
            }),
    {
        if self.is_loading && self.accounts.len() == 0 {
            AccountsBody::Loading
        } else if self.accounts.len() == 0 {
            AccountsBody::Empty
        } else {
            AccountsBody::Table
        }
    }

    /// The label of the button that shows or hides the form.
    pub fn toggle_label(&self) -> (r: &'static str)
        ensures
            r@ == (if self.show_form { "Cancel"@ } else { "Add New Account"@ }),
    {
        if self.show_form {
            "Cancel"
        } else {
            "Add New Account"
        }
    }

    /// The label of the form's submit button.
    pub fn submit_label(&self) -> (r: &'static str)
        ensures
            r@ == (if self.is_loading { "Saving..."@ } else { "Create Account"@ }),
    {
        if self.is_loading {
            "Saving..."
        } else {
            "Create Account"
        }
    }
}

/// The status shown for an account.
pub fn status_label(is_active: bool) -> (r: &'static str)
    ensures
        r@ == (if is_active { "Active"@ } else { "Inactive"@ }),
{
    if is_active {
        "Active"
    } else {
        "Inactive"
    }
}

/// Choosing a type always chooses a category offered for it, when it offers
/// any.
pub proof fn lemma_type_choice_picks_offered_category(s: AccountsStateView, t: String)
    ensures
        ({
            let next = page_transition(s, AccountsEvent::TypeChosen(t)).0;
            category_names_for(t@).len() > 0 ==> category_names_for(t@).contains(
                next.new_account.category,
            )
        }),
{
    if category_names_for(t@).len() > 0 {
        assert(category_names_for(t@)[0] == default_category_for(t@));
    }
}

/// A successful creation lists the new account last, keeps the others,
/// hides and empties the form and clears the error.
pub proof fn lemma_created_account_listed(s: AccountsStateView, a: AccountViewModel)
    ensures
        ({
            let next = page_transition(s, AccountsEvent::Created(Ok(a))).0;
            &&& next.accounts.len() == s.accounts.len() + 1
            &&& next.accounts.last() == a@
            &&& next.accounts.drop_last() == s.accounts
            &&& !next.show_form
            &&& next.new_account == blank_model()
            &&& next.error_message is None
            &&& !next.is_loading
        }),
{
    let next = page_transition(s, AccountsEvent::Created(Ok(a))).0;
    assert(next.accounts.drop_last() =~= s.accounts);
}

/// Typing in the form changes only the field typed in: entering a code, a
/// name or a category sets that field of the form to the text entered,
/// entering a description sets it (none when the text is empty), and every
/// other field of the form, the list, the error, the loading flag and the
/// form's visibility stay as they were; no work is handed out.
pub proof fn lemma_typing_edits_one_field(s: AccountsStateView, text: String)
    ensures
        ({
            let (next, task) = page_transition(s, AccountsEvent::CodeEntered(text));
            &&& next.new_account.code == text@
            &&& next.new_account.name == s.new_account.name
            &&& next.new_account.description == s.new_account.description
            &&& next.new_account.account_type == s.new_account.account_type
            &&& next.new_account.category == s.new_account.category
            &&& next.new_account.subcategory == s.new_account.subcategory
            &&& next.new_account.parent_id == s.new_account.parent_id
            &&& next.accounts == s.accounts && next.error_message == s.error_message
            &&& next.is_loading == s.is_loading && next.show_form == s.show_form
            &&& task is None
        }),
        ({
            let (next, task) = page_transition(s, AccountsEvent::NameEntered(text));
            &&& next.new_account.name == text@
            &&& next.new_account.code == s.new_account.code
            &&& next.new_account.description == s.new_account.description
            &&& next.new_account.account_type == s.new_account.account_type
            &&& next.new_account.category == s.new_account.category
            &&& next.new_account.subcategory == s.new_account.subcategory
            &&& next.new_account.parent_id == s.new_account.parent_id
            &&& next.accounts == s.accounts && next.error_message == s.error_message
            &&& next.is_loading == s.is_loading && next.show_form == s.show_form
            &&& task is None
        }),
        ({
            let (next, task) = page_transition(s, AccountsEvent::DescriptionEntered(text));
            &&& (text@.len() == 0 ==> next.new_account.description is None)
            &&& (text@.len() > 0 ==> next.new_account.description == Some(text@))
            &&& next.new_account.code == s.new_account.code
            &&& next.new_account.name == s.new_account.name
            &&& next.new_account.account_type == s.new_account.account_type
            &&& next.new_account.category == s.new_account.category
            &&& next.new_account.subcategory == s.new_account.subcategory
            &&& next.new_account.parent_id == s.new_account.parent_id
            &&& next.accounts == s.accounts && next.error_message == s.error_message
            &&& next.is_loading == s.is_loading && next.show_form == s.show_form
            &&& task is None
        }),
        ({
            let (next, task) = page_transition(s, AccountsEvent::CategoryChosen(text));
            &&& next.new_account.category == text@
            &&& next.new_account.code == s.new_account.code
            &&& next.new_account.name == s.new_account.name
            &&& next.new_account.description == s.new_account.description
            &&& next.new_account.account_type == s.new_account.account_type
            &&& next.new_account.subcategory == s.new_account.subcategory
            &&& next.new_account.parent_id == s.new_account.parent_id
            &&& next.accounts == s.accounts && next.error_message == s.error_message
            &&& next.is_loading == s.is_loading && next.show_form == s.show_form
            &&& task is None
        }),
        ({
            let (next, task) = page_transition(s, AccountsEvent::TypeChosen(text));
            &&& next.new_account.account_type == text@
            &&& next.new_account.code == s.new_account.code
            &&& next.new_account.name == s.new_account.name
            &&& next.new_account.description == s.new_account.description
            &&& next.new_account.subcategory == s.new_account.subcategory
            &&& next.new_account.parent_id == s.new_account.parent_id
            &&& next.accounts == s.accounts && next.error_message == s.error_message
            &&& next.is_loading == s.is_loading && next.show_form == s.show_form
            &&& task is None
        }),
{
}

} // verus!
