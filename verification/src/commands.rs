//! The account commands the frontend invokes, as a protocol between the
//! library and the database: each step takes the command or the database's
//! answer and decides the next database action or the reply.

use vstd::prelude::*;
use crate::account::{copy_text, Account, AccountView, NewAccount, NewAccountView};
use crate::account_category::AccountCategory;
use crate::account_type::AccountType;
use crate::error::{not_found, validation_error, DatabaseError, Error, ErrorResponse};
use crate::ids::{new_random_uuid, parse_uuid, uuid_parse_result, uuid_text, uuid_to_string};
use crate::money::{decimal_text, Money};
use crate::text::{join, uppercase_of};
use crate::time::{rfc3339_text, Timestamp};

verus! {

/// An account as the frontend sees it: every value as text.
pub struct AccountViewModel {
    pub id: String,
    pub code: String,
    pub name: String,
    pub description: Option<String>,
    pub account_type: String,
    pub category: String,
    pub subcategory: Option<String>,
    pub is_active: bool,
    pub parent_id: Option<String>,
    pub balance: String,
    pub created_at: String,
    pub updated_at: String,
}

/// The contents of a view model, with its texts as character sequences.
pub struct AccountViewModelView {
    pub id: Seq<char>,
    pub code: Seq<char>,
    pub name: Seq<char>,
    pub description: Option<Seq<char>>,
    pub account_type: Seq<char>,
    pub category: Seq<char>,
    pub subcategory: Option<Seq<char>>,
    pub is_active: bool,
    pub parent_id: Option<Seq<char>>,
    pub balance: Seq<char>,
    pub created_at: Seq<char>,
    pub updated_at: Seq<char>,
}

impl View for AccountViewModel {
    type V = AccountViewModelView;

    open spec fn view(&self) -> AccountViewModelView {
        AccountViewModelView {
            id: self.id@,
            code: self.code@,
            name: self.name@,
            description: self.description.deep_view(),
            account_type: self.account_type@,
            category: self.category@,
            subcategory: self.subcategory.deep_view(),
            is_active: self.is_active,
            parent_id: self.parent_id.deep_view(),
            balance: self.balance@,
            created_at: self.created_at@,
            updated_at: self.updated_at@,
        }
    }
}

/// The data the frontend sends to create or update an account.
pub struct NewAccountDto {
    pub code: String,
    pub name: String,
    pub description: Option<String>,
    pub account_type: String,
    pub category: String,
    pub subcategory: Option<String>,
    pub parent_id: Option<String>,
}

/// The contents of the data sent by the frontend.
pub struct NewAccountDtoView {
    pub code: Seq<char>,
    pub name: Seq<char>,
    pub description: Option<Seq<char>>,
    pub account_type: Seq<char>,
    pub category: Seq<char>,
    pub subcategory: Option<Seq<char>>,
    pub parent_id: Option<Seq<char>>,
}

impl View for NewAccountDto {
    type V = NewAccountDtoView;

    open spec fn view(&self) -> NewAccountDtoView {
        NewAccountDtoView {
            code: self.code@,
            name: self.name@,
            description: self.description.deep_view(),
            account_type: self.account_type@,
            category: self.category@,
            subcategory: self.subcategory.deep_view(),
            parent_id: self.parent_id.deep_view(),
        }
    }
}

/// How the frontend sees an account: identifiers in hyphenated form, type
/// and category by name, the balance as a decimal and times in RFC 3339.
pub open spec fn view_model(a: AccountView) -> AccountViewModelView {
    AccountViewModelView {
        id: uuid_text(a.id),
        code: a.code,
        name: a.name,
        description: a.description,
        account_type: a.account_type.name(),
        category: a.category.name(),
        subcategory: a.subcategory,
        is_active: a.is_active,
        parent_id: match a.parent_id {
            Some(p) => Some(uuid_text(p)),
            None => None,
        },
        balance: decimal_text(
            a.balance.spec_magnitude(),
            a.balance.spec_negative(),
            a.balance.spec_scale(),
        ),
        created_at: rfc3339_text(a.created_at.seconds(), a.created_at.subsec_nanos()),
        updated_at: rfc3339_text(a.updated_at.seconds(), a.updated_at.subsec_nanos()),
    }
}

impl AccountViewModel {
    /// The view model of an account.
    pub fn from_account(account: &Account) -> (r: AccountViewModel)
        ensures
            r@ == view_model(account@),
    {
        let parent_id = match account.parent_id {
            Some(p) => Some(uuid_to_string(p)),
            None => None,
        };
        AccountViewModel {
            id: uuid_to_string(account.id),
            code: account.code.clone(),
            name: account.name.clone(),
            description: copy_text(&account.description),
            account_type: account.account_type.to_string(),
            category: account.category.to_string(),
            subcategory: copy_text(&account.subcategory),
            is_active: account.is_active,
            parent_id,
            balance: account.balance.to_string(),
            created_at: account.created_at.to_rfc3339(),
            updated_at: account.updated_at.to_rfc3339(),
        }
    }
}

/// The text a command fails with for an error: the text of the error's
/// response.
pub open spec fn failure_text(e: Error, debug: bool) -> Seq<char> {
    ErrorResponse::text_of(e.response_message(), e.response_details(debug))
}

/// The text a command fails with for invalid input.
pub open spec fn invalid_text(message: Seq<char>) -> Seq<char> {
    ErrorResponse::text_of("A validation error occurred"@, Some(message))
}

/// The text a command fails with for a database failure.
pub open spec fn database_failure_text(e: DatabaseError, debug: bool) -> Seq<char> {
    ErrorResponse::text_of(
        e.response_message(),
        if debug { Some(e.text@) } else { None },
    )
}

/// The text a command fails with when the account does not exist.
pub open spec fn missing_account_text() -> Seq<char> {
    ErrorResponse::text_of("Resource not found"@, Some("Account"@ + " not found"@))
}

/// The parent given by the frontend: none when absent or empty, otherwise
/// the parsed identifier, or the message for a malformed one.
pub open spec fn parsed_parent(parent: Option<Seq<char>>) -> Result<Option<u128>, Seq<char>> {
    match parent {
        None => Ok(None),
        Some(p) => if p.len() == 0 {
            Ok(None)
        } else {
            match uuid_parse_result(p) {
                Ok(v) => Ok(Some(v)),
                Err(e) => Err("Invalid parent UUID format: "@ + e),
            }
        },
    }
}

/// The account data the frontend's input denotes, or the text the command
/// fails with: the type and the category must name one (in any case), and
/// the parent, when given, must be a UUID.
pub open spec fn validated(dto: NewAccountDtoView) -> Result<NewAccountView, Seq<char>> {
    match AccountType::from_name(uppercase_of(dto.account_type)) {
        None => Err(invalid_text("Invalid account type"@)),
        Some(t) => match AccountCategory::from_name(uppercase_of(dto.category)) {
            None => Err(invalid_text("Invalid account category"@)),
            Some(c) => match parsed_parent(dto.parent_id) {
                Err(e) => Err(e),
                Ok(p) => Ok(
                    NewAccountView {
                        code: dto.code,
                        name: dto.name,
                        description: dto.description,
                        account_type: t,
                        category: c,
                        subcategory: dto.subcategory,
                        parent_id: p,
                    },
                ),
            },
        },
    }
}

/// The identifier in a command, or the text the command fails with.
pub open spec fn parsed_id(id: Seq<char>) -> Result<u128, Seq<char>> {
    match uuid_parse_result(id) {
        Ok(v) => Ok(v),
        Err(e) => Err("Invalid UUID format: "@ + e),
    }
}

/// An account updated with new data at time `now`: everything the
/// frontend can edit is replaced; identifier, activity, balance and
/// creation time stay.
pub open spec fn updated_account(a: AccountView, data: NewAccountView, now: Timestamp) -> AccountView {
    AccountView {
        code: data.code,
        name: data.name,
        description: data.description,
        account_type: data.account_type,
        category: data.category,
        subcategory: data.subcategory,
        parent_id: data.parent_id,
        updated_at: now,
        ..a
    }
}

/// An account with its active status flipped at time `now`.
pub open spec fn toggled_account(a: AccountView, now: Timestamp) -> AccountView {
    AccountView { is_active: !a.is_active, updated_at: now, ..a }
}

/// Parses a command's account identifier; a malformed one fails with
/// "Invalid UUID format: <error>". The identifier text the frontend is
/// given for an account parses back to that account's identifier.
pub fn parse_account_id(id: &str) -> (r: Result<u128, String>)
    ensures
        match parsed_id(id@) {
            Ok(v) => r == Ok::<u128, String>(v),
            Err(m) => r matches Err(e) && e@ == m,
        },
        forall|v: u128| id@ == uuid_text(v) ==> r == Ok::<u128, String>(v),
{
    match parse_uuid(id) {
        Ok(v) => Ok(v),
        Err(e) => Err(join("Invalid UUID format: ", e.as_str())),
    }
}

/// Parses the parent given by the frontend (see `parsed_parent`).
pub fn parse_parent_id(parent: Option<String>) -> (r: Result<Option<u128>, String>)
    ensures
        match parsed_parent(parent.deep_view()) {
            Ok(p) => r == Ok::<Option<u128>, String>(p),
            Err(m) => r matches Err(e) && e@ == m,
        },
{
    match parent {
        None => Ok(None),
        Some(p) => {
            if p.as_str().is_empty() {
                Ok(None)
            } else {
                match parse_uuid(p.as_str()) {
                    Ok(v) => Ok(Some(v)),
                    Err(e) => Err(join("Invalid parent UUID format: ", e.as_str())),
                }
            }
        },
    }
}

/// The text a command fails with for an error.
pub fn failure(e: Error, debug: bool) -> (r: String)
    ensures
        r@ == failure_text(e, debug),
{
    ErrorResponse::from_error(e, debug).into_string()
}

/// Validates the frontend's input into account data (see `validated`).
pub fn validate_new_account(dto: NewAccountDto, debug: bool) -> (r: Result<NewAccount, String>)
    ensures
        match validated(dto@) {
            Ok(n) => r matches Ok(na) && na@ == n,
            Err(m) => r matches Err(e) && e@ == m,
        },
{
    let account_type = match AccountType::from_str(dto.account_type.as_str()) {
        Some(t) => t,
        None => return Err(failure(validation_error("Invalid account type"), debug)),
    };
    let category = match AccountCategory::from_str(dto.category.as_str()) {
        Some(c) => c,
        None => return Err(failure(validation_error("Invalid account category"), debug)),
    };
    let parent_id = match parse_parent_id(dto.parent_id) {
        Ok(p) => p,
        Err(e) => return Err(e),
    };
    Ok(
        NewAccount {
            code: dto.code,
            name: dto.name,
            description: dto.description,
            account_type,
            category,
            subcategory: dto.subcategory,
            parent_id,
        },
    )
}

/// The view models of a list of accounts, in the same order.
pub open spec fn view_models_of(accounts: Seq<Account>) -> Seq<AccountViewModelView> {
    accounts.map_values(|a: Account| view_model(a@))
}

/// The view models of a list of accounts, in the same order.
pub fn view_models(accounts: &Vec<Account>) -> (r: Vec<AccountViewModel>)
    ensures
        r@.map_values(|m: AccountViewModel| m@) == view_models_of(accounts@),
        r@.len() == accounts@.len(),
        forall|j: int| 0 <= j < accounts@.len() ==> (#[trigger] r@[j])@ == view_model(accounts@[j]@),
{
    let mut r: Vec<AccountViewModel> = Vec::new();
    let mut i: usize = 0;
    while i < accounts.len()
        invariant
            i <= accounts.len(),
            r@.len() == i,
            forall|j: int| 0 <= j < i ==> (#[trigger] r@[j])@ == view_model(accounts@[j]@),
        decreases accounts.len() - i,
    {
        let m = AccountViewModel::from_account(&accounts[i]);
        r.push(m);
        i = i + 1;
    }
    assert(r@.map_values(|m: AccountViewModel| m@) =~= view_models_of(accounts@));
    r
}

/// The commands the frontend can invoke.
pub enum Command {
    GetAccounts,
    GetAccount { id: String },
    CreateAccount { new_account: NewAccountDto },
    UpdateAccount { id: String, update_data: NewAccountDto },
    DeleteAccount { id: String },
    ToggleAccountStatus { id: String },
    GetRootAccounts,
    GetChildAccounts { parent_id: String },
}

/// What happens to a command: it is invoked, or the database answers the
/// action asked of it (a list of accounts, the account looked up, or the
/// outcome of a write).
pub enum Event {
    Invoke(Command),
    Listed(Result<Vec<Account>, DatabaseError>),
    Found(Result<Option<Account>, DatabaseError>),
    Written(Result<(), DatabaseError>),
}

/// The reply a command gives the frontend.
pub enum Reply {
    Accounts(Vec<AccountViewModel>),
    Account(Option<AccountViewModel>),
    Saved(AccountViewModel),
    Deleted,
    Failed(String),
}

/// What the command asks next: a database operation, or its reply.
pub enum Action {
    /// All accounts, ordered by code.
    FindAll,
    /// The accounts without a parent, ordered by code.
    FindRoots,
    /// The children of an account, ordered by code.
    FindChildren(u128),
    /// The account with an identifier.
    FindById(u128),
    /// Insert a new account.
    Insert(Account),
    /// Save an existing account.
    Update(Account),
    /// Delete the account with an identifier.
    Delete(u128),
    /// Answer the frontend.
    Reply(Reply),
}

/// Where a command stands.
pub enum CommandState {
    Ready,
    AwaitingList,
    AwaitingAccount,
    AwaitingInsert(Account),
    AwaitingUpdateTarget(NewAccountDto),
    AwaitingToggleTarget,
    AwaitingSave(Account),
    AwaitingDelete,
    Done,
}

/// A reply with its texts as character sequences.
pub enum ReplyView {
    Accounts(Seq<AccountViewModelView>),
    Account(Option<AccountViewModelView>),
    Saved(AccountViewModelView),
    Deleted,
    Failed(Seq<char>),
}

/// An action with its accounts and reply taken by their views.
pub enum ActionView {
    FindAll,
    FindRoots,
    FindChildren(u128),
    FindById(u128),
    Insert(AccountView),
    Update(AccountView),
    Delete(u128),
    Reply(ReplyView),
}

/// A command's state with its data taken by views.
pub enum CommandStateView {
    Ready,
    AwaitingList,
    AwaitingAccount,
    AwaitingInsert(AccountView),
    AwaitingUpdateTarget(NewAccountDtoView),
    AwaitingToggleTarget,
    AwaitingSave(AccountView),
    AwaitingDelete,
    Done,
}

impl View for Reply {
    type V = ReplyView;

    open spec fn view(&self) -> ReplyView {
        match self {
            Reply::Accounts(v) => ReplyView::Accounts(v@.map_values(|m: AccountViewModel| m@)),
            Reply::Account(o) => ReplyView::Account(
                match o {
                    Some(m) => Some(m@),
                    None => None,
                },
            ),
            Reply::Saved(m) => ReplyView::Saved(m@),
            Reply::Deleted => ReplyView::Deleted,
            Reply::Failed(s) => ReplyView::Failed(s@),
        }
    }
}

impl View for Action {
    type V = ActionView;

    open spec fn view(&self) -> ActionView {
        match self {
            Action::FindAll => ActionView::FindAll,
            Action::FindRoots => ActionView::FindRoots,
            Action::FindChildren(p) => ActionView::FindChildren(*p),
            Action::FindById(i) => ActionView::FindById(*i),
            Action::Insert(a) => ActionView::Insert(a@),
            Action::Update(a) => ActionView::Update(a@),
            Action::Delete(i) => ActionView::Delete(*i),
            Action::Reply(r) => ActionView::Reply(r@),
        }
    }
}

impl View for CommandState {
    type V = CommandStateView;

    open spec fn view(&self) -> CommandStateView {
        match self {
            CommandState::Ready => CommandStateView::Ready,
            CommandState::AwaitingList => CommandStateView::AwaitingList,
            CommandState::AwaitingAccount => CommandStateView::AwaitingAccount,
            CommandState::AwaitingInsert(a) => CommandStateView::AwaitingInsert(a@),
            CommandState::AwaitingUpdateTarget(d) => CommandStateView::AwaitingUpdateTarget(d@),
            CommandState::AwaitingToggleTarget => CommandStateView::AwaitingToggleTarget,
            CommandState::AwaitingSave(a) => CommandStateView::AwaitingSave(a@),
            CommandState::AwaitingDelete => CommandStateView::AwaitingDelete,
            CommandState::Done => CommandStateView::Done,
        }
    }
}

impl CommandStateView {
    /// The most steps the command may still take.
    pub open spec fn rank(self) -> nat {
        match self {
            CommandStateView::Ready => 3,
            CommandStateView::AwaitingUpdateTarget(_) => 2,
            CommandStateView::AwaitingToggleTarget => 2,
            CommandStateView::Done => 0,
            _ => 1,
        }
    }
}

/// Whether the event is the one the state waits for: a command when
/// ready, the list for a listing, the account looked up after a lookup,
/// the outcome of a write after a write. A finished command takes none.
pub open spec fn accepts(state: CommandState, event: Event) -> bool {
    match state {
        CommandState::Ready => event is Invoke,
        CommandState::AwaitingList => event is Listed,
        CommandState::AwaitingAccount => event is Found,
        CommandState::AwaitingUpdateTarget(_) => event is Found,
        CommandState::AwaitingToggleTarget => event is Found,
        CommandState::AwaitingInsert(_) => event is Written,
        CommandState::AwaitingSave(_) => event is Written,
        CommandState::AwaitingDelete => event is Written,
        CommandState::Done => false,
    }
}

impl CommandState {
    /// Whether the state accepts the event (see `accepts`).
    pub fn accepts_event(&self, event: &Event) -> (r: bool)
        ensures
            r == accepts(*self, *event),
    {
        match self {
            CommandState::Ready => matches!(event, Event::Invoke(_)),
            CommandState::AwaitingList => matches!(event, Event::Listed(_)),
            CommandState::AwaitingAccount => matches!(event, Event::Found(_)),
            CommandState::AwaitingUpdateTarget(_) => matches!(event, Event::Found(_)),
            CommandState::AwaitingToggleTarget => matches!(event, Event::Found(_)),
            CommandState::AwaitingInsert(_) => matches!(event, Event::Written(_)),
            CommandState::AwaitingSave(_) => matches!(event, Event::Written(_)),
            CommandState::AwaitingDelete => matches!(event, Event::Written(_)),
            CommandState::Done => false,
        }
    }
}

/// Finishing with a failure.
pub open spec fn failed(message: Seq<char>) -> (CommandStateView, ActionView) {
    (CommandStateView::Done, ActionView::Reply(ReplyView::Failed(message)))
}

/// Finishing with a reply.
pub open spec fn replied(reply: ReplyView) -> (CommandStateView, ActionView) {
    (CommandStateView::Done, ActionView::Reply(reply))
}

/// The step a command takes on an event it accepts. `debug` tells whether
/// database failures show their details; `fresh_id` and `now` are the
/// identifier and the time a new account is opened with, and `now` is also
/// the time an update or a status change is stamped with.
pub open spec fn transition(
    state: CommandState,
    event: Event,
    debug: bool,
    fresh_id: u128,
    now: Timestamp,
) -> (CommandStateView, ActionView) {
    match state {
        CommandState::Ready => match event {
            Event::Invoke(command) => match command {
                Command::GetAccounts => (CommandStateView::AwaitingList, ActionView::FindAll),
                Command::GetRootAccounts => (CommandStateView::AwaitingList, ActionView::FindRoots),
                Command::GetChildAccounts { parent_id } => match parsed_id(parent_id@) {
                    Ok(p) => (CommandStateView::AwaitingList, ActionView::FindChildren(p)),
                    Err(m) => failed(m),
                },
                Command::GetAccount { id } => match parsed_id(id@) {
                    Ok(i) => (CommandStateView::AwaitingAccount, ActionView::FindById(i)),
                    Err(m) => failed(m),
                },
                Command::CreateAccount { new_account } => match validated(new_account@) {
                    Ok(n) => (
                        CommandStateView::AwaitingInsert(AccountView::opened(n, fresh_id, now)),
                        ActionView::Insert(AccountView::opened(n, fresh_id, now)),
                    ),
                    Err(m) => failed(m),
                },
                Command::UpdateAccount { id, update_data } => match parsed_id(id@) {
                    Ok(i) => (
                        CommandStateView::AwaitingUpdateTarget(update_data@),
                        ActionView::FindById(i),
                    ),
                    Err(m) => failed(m),
                },
                Command::DeleteAccount { id } => match parsed_id(id@) {
                    Ok(i) => (CommandStateView::AwaitingDelete, ActionView::Delete(i)),
                    Err(m) => failed(m),
                },
                Command::ToggleAccountStatus { id } => match parsed_id(id@) {
                    Ok(i) => (CommandStateView::AwaitingToggleTarget, ActionView::FindById(i)),
                    Err(m) => failed(m),
                },
            },
            _ => failed(Seq::empty()),
        },
        CommandState::AwaitingList => match event {
            Event::Listed(Ok(accounts)) => replied(ReplyView::Accounts(view_models_of(accounts@))),
            Event::Listed(Err(e)) => failed(database_failure_text(e, debug)),
            _ => failed(Seq::empty()),
        },
        CommandState::AwaitingAccount => match event {
            Event::Found(Ok(Some(a))) => replied(ReplyView::Account(Some(view_model(a@)))),
            Event::Found(Ok(None)) => replied(ReplyView::Account(None)),
            Event::Found(Err(e)) => failed(database_failure_text(e, debug)),
            _ => failed(Seq::empty()),
        },
        CommandState::AwaitingUpdateTarget(data) => match event {
            Event::Found(Ok(Some(a))) => match validated(data@) {
                Ok(n) => (
                    CommandStateView::AwaitingSave(updated_account(a@, n, now)),
                    ActionView::Update(updated_account(a@, n, now)),
                ),
                Err(m) => failed(m),
            },
            Event::Found(Ok(None)) => failed(missing_account_text()),
            Event::Found(Err(e)) => failed(database_failure_text(e, debug)),
            _ => failed(Seq::empty()),
        },
        CommandState::AwaitingToggleTarget => match event {
            Event::Found(Ok(Some(a))) => (
                CommandStateView::AwaitingSave(toggled_account(a@, now)),
                ActionView::Update(toggled_account(a@, now)),
            ),
            Event::Found(Ok(None)) => failed(missing_account_text()),
            Event::Found(Err(e)) => failed(database_failure_text(e, debug)),
            _ => failed(Seq::empty()),
        },
        CommandState::AwaitingInsert(a) => match event {
            Event::Written(Ok(_)) => replied(ReplyView::Saved(view_model(a@))),
            Event::Written(Err(e)) => failed(database_failure_text(e, debug)),
            _ => failed(Seq::empty()),
        },
        CommandState::AwaitingSave(a) => match event {
            Event::Written(Ok(_)) => replied(ReplyView::Saved(view_model(a@))),
            Event::Written(Err(e)) => failed(database_failure_text(e, debug)),
            _ => failed(Seq::empty()),
        },
        CommandState::AwaitingDelete => match event {
            Event::Written(Ok(_)) => replied(ReplyView::Deleted),
            Event::Written(Err(e)) => failed(database_failure_text(e, debug)),
            _ => failed(Seq::empty()),
        },
        CommandState::Done => failed(Seq::empty()),
    }
}

/// Finishing with a failure.
fn fail_with(message: String) -> (r: (CommandState, Action))
    ensures
        (r.0@, r.1@) == failed(message@),
{
    (CommandState::Done, Action::Reply(Reply::Failed(message)))
}

/// The text of a database failure.
fn database_failure(e: DatabaseError, debug: bool) -> (r: String)
    ensures
        r@ == database_failure_text(e, debug),
{
    ErrorResponse::from_database(e, debug).into_string()
}

/// Takes one step of a command on an event it accepts, with the given
/// identifier and time for accounts opened or changed in this step (see
/// `transition`).
pub fn step_at(state: CommandState, event: Event, debug: bool, fresh_id: u128, now: Timestamp) -> (r: (
    CommandState,
    Action,
))
    requires
        accepts(state, event),
    ensures
        (r.0@, r.1@) == transition(state, event, debug, fresh_id, now),
{
    match state {
        CommandState::Ready => match event {
            Event::Invoke(command) => match command {
                Command::GetAccounts => (CommandState::AwaitingList, Action::FindAll),
                Command::GetRootAccounts => (CommandState::AwaitingList, Action::FindRoots),
                Command::GetChildAccounts { parent_id } => match parse_account_id(parent_id.as_str()) {
                    Ok(p) => (CommandState::AwaitingList, Action::FindChildren(p)),
                    Err(m) => fail_with(m),
                },
                Command::GetAccount { id } => match parse_account_id(id.as_str()) {
                    Ok(i) => (CommandState::AwaitingAccount, Action::FindById(i)),
                    Err(m) => fail_with(m),
                },
                Command::CreateAccount { new_account } => match validate_new_account(new_account, debug) {
                    Ok(n) => {
                        let account = Account::open(n, fresh_id, now);
                        let pending = account.duplicate();
                        (CommandState::AwaitingInsert(pending), Action::Insert(account))
                    },
                    Err(m) => fail_with(m),
                },
                Command::UpdateAccount { id, update_data } => match parse_account_id(id.as_str()) {
                    Ok(i) => (CommandState::AwaitingUpdateTarget(update_data), Action::FindById(i)),
                    Err(m) => fail_with(m),
                },
                Command::DeleteAccount { id } => match parse_account_id(id.as_str()) {
                    Ok(i) => (CommandState::AwaitingDelete, Action::Delete(i)),
                    Err(m) => fail_with(m),
                },
                Command::ToggleAccountStatus { id } => match parse_account_id(id.as_str()) {
                    Ok(i) => (CommandState::AwaitingToggleTarget, Action::FindById(i)),
                    Err(m) => fail_with(m),
                },
            },
            _ => fail_with(String::new()),
        },
        CommandState::AwaitingList => match event {
            Event::Listed(Ok(accounts)) => (
                CommandState::Done,
                Action::Reply(Reply::Accounts(view_models(&accounts))),
            ),
            Event::Listed(Err(e)) => fail_with(database_failure(e, debug)),
            _ => fail_with(String::new()),
        },
        CommandState::AwaitingAccount => match event {
            Event::Found(Ok(Some(a))) => (
                CommandState::Done,
                Action::Reply(Reply::Account(Some(AccountViewModel::from_account(&a)))),
            ),
            Event::Found(Ok(None)) => (CommandState::Done, Action::Reply(Reply::Account(None))),
            Event::Found(Err(e)) => fail_with(database_failure(e, debug)),
            _ => fail_with(String::new()),
        },
        CommandState::AwaitingUpdateTarget(data) => match event {
            Event::Found(Ok(Some(a))) => match validate_new_account(data, debug) {
                Ok(n) => {
                    let mut account = a;
                    account.code = n.code;
                    account.name = n.name;
                    account.description = n.description;
                    account.account_type = n.account_type;
                    account.category = n.category;
                    account.subcategory = n.subcategory;
                    account.parent_id = n.parent_id;
                    account.updated_at = now;
                    let pending = account.duplicate();
                    (CommandState::AwaitingSave(pending), Action::Update(account))
                },
                Err(m) => fail_with(m),
            },
            Event::Found(Ok(None)) => fail_with(failure(not_found("Account"), debug)),
            Event::Found(Err(e)) => fail_with(database_failure(e, debug)),
            _ => fail_with(String::new()),
        },
        CommandState::AwaitingToggleTarget => match event {
            Event::Found(Ok(Some(a))) => {
                let mut account = a;
                account.is_active = !account.is_active;
                account.updated_at = now;
                let pending = account.duplicate();
                (CommandState::AwaitingSave(pending), Action::Update(account))
            },
            Event::Found(Ok(None)) => fail_with(failure(not_found("Account"), debug)),
            Event::Found(Err(e)) => fail_with(database_failure(e, debug)),
            _ => fail_with(String::new()),
        },
        CommandState::AwaitingInsert(a) => match event {
            Event::Written(Ok(_)) => (
                CommandState::Done,
                Action::Reply(Reply::Saved(AccountViewModel::from_account(&a))),
            ),
            Event::Written(Err(e)) => fail_with(database_failure(e, debug)),
            _ => fail_with(String::new()),
        },
        CommandState::AwaitingSave(a) => match event {
            Event::Written(Ok(_)) => (
                CommandState::Done,
                Action::Reply(Reply::Saved(AccountViewModel::from_account(&a))),
            ),
            Event::Written(Err(e)) => fail_with(database_failure(e, debug)),
            _ => fail_with(String::new()),
        },
        CommandState::AwaitingDelete => match event {
            Event::Written(Ok(_)) => (CommandState::Done, Action::Reply(Reply::Deleted)),
            Event::Written(Err(e)) => fail_with(database_failure(e, debug)),
            _ => fail_with(String::new()),
        },
        CommandState::Done => fail_with(String::new()),
    }
}

/// Whether a step opens a new account (and so needs a fresh identifier).
pub open spec fn opens_account(state: CommandState, event: Event) -> bool {
    state is Ready && event matches Event::Invoke(Command::CreateAccount { .. })
}

/// Whether `id` carries the marks of a random (version 4) UUID.
pub open spec fn is_random_uuid(id: u128) -> bool {
    (id >> 76u128) & 0xfu128 == 4 && (id >> 62u128) & 3u128 == 2
}

/// Takes one step of a command on an event it accepts. A new account gets
/// a fresh random identifier; accounts opened or changed are stamped with
/// the current time.
pub fn step(state: CommandState, event: Event, debug: bool) -> (r: (CommandState, Action))
    requires
        accepts(state, event),
    ensures
        exists|fresh_id: u128, now: Timestamp|
            (opens_account(state, event) ==> is_random_uuid(fresh_id)) && (r.0@, r.1@)
                == #[trigger] transition(state, event, debug, fresh_id, now),
{
    let opens = match (&state, &event) {
        (CommandState::Ready, Event::Invoke(Command::CreateAccount { .. })) => true,
        _ => false,
    };
    let fresh_id: u128 = if opens {
        new_random_uuid()
    } else {
        0
    };
    let now = Timestamp::now();
    let r = step_at(state, event, debug, fresh_id, now);
    assert((opens_account(state, event) ==> is_random_uuid(fresh_id)) && (r.0@, r.1@)
        == transition(state, event, debug, fresh_id, now));
    r
}

/// Every step brings a command closer to its reply: the number of steps it
/// may still take strictly decreases, and a step ends the command exactly
/// when it replies. So every command replies after at most three steps.
pub proof fn lemma_step_progresses(
    state: CommandState,
    event: Event,
    debug: bool,
    fresh_id: u128,
    now: Timestamp,
)
    requires
        accepts(state, event),
    ensures
        transition(state, event, debug, fresh_id, now).0.rank() < state@.rank(),
        (transition(state, event, debug, fresh_id, now).0 is Done) <==> (transition(
            state,
            event,
            debug,
            fresh_id,
            now,
        ).1 is Reply),
        state@.rank() <= 3,
{
}

/// An update saves the account that was found with the edited data and the
/// new time: code, name, description, type, category, subcategory and
/// parent are the submitted ones (type and category parsed, the parent
/// parsed from its text); its identifier, activity, balance and creation
/// time stay. When the data is invalid nothing is saved.
pub proof fn lemma_update_keeps_identity(
    data: NewAccountDto,
    found: Account,
    debug: bool,
    fresh_id: u128,
    now: Timestamp,
)
    ensures
        ({
            let t = transition(
                CommandState::AwaitingUpdateTarget(data),
                Event::Found(Ok(Some(found))),
                debug,
                fresh_id,
                now,
            );
            match t.1 {
                ActionView::Update(saved) => {
                    &&& validated(data@) is Ok
                    &&& saved.id == found.id
                    &&& saved.is_active == found.is_active
                    &&& saved.balance == found.balance
                    &&& saved.created_at == found.created_at
                    &&& saved.updated_at == now
                    &&& saved.code == data@.code
                    &&& saved.name == data@.name
                    &&& saved.description == data@.description
                    &&& saved.subcategory == data@.subcategory
                    &&& Some(saved.account_type) == AccountType::from_name(
                        uppercase_of(data@.account_type),
                    )
                    &&& Some(saved.category) == AccountCategory::from_name(
                        uppercase_of(data@.category),
                    )
                    &&& Ok::<Option<u128>, Seq<char>>(saved.parent_id) == parsed_parent(
                        data@.parent_id,
                    )
                    &&& t.0 == CommandStateView::AwaitingSave(saved)
                },
                ActionView::Reply(ReplyView::Failed(m)) => validated(data@) == Err::<
                    NewAccountView,
                    Seq<char>,
                >(m),
                _ => false,
            }
        }),
{
}

/// Toggling saves the account that was found with its active status
/// flipped and the new time; everything else stays.
pub proof fn lemma_toggle_flips_status(found: Account, debug: bool, fresh_id: u128, now: Timestamp)
    ensures
        ({
            let t = transition(
                CommandState::AwaitingToggleTarget,
                Event::Found(Ok(Some(found))),
                debug,
                fresh_id,
                now,
            );
            &&& t.1 == ActionView::Update(
                AccountView { is_active: !found@.is_active, updated_at: now, ..found@ },
            )
            &&& t.0 == CommandStateView::AwaitingSave(
                AccountView { is_active: !found@.is_active, updated_at: now, ..found@ },
            )
        }),
{
}

/// Accounts are written only from valid input: an insertion comes from a
/// create command whose data is valid and opens the account from that data,
/// and a save comes right after the account was found.
pub proof fn lemma_writes_need_valid_input(
    state: CommandState,
    event: Event,
    debug: bool,
    fresh_id: u128,
    now: Timestamp,
)
    requires
        accepts(state, event),
    ensures
        transition(state, event, debug, fresh_id, now).1 matches ActionView::Insert(a) ==> (
        event matches Event::Invoke(Command::CreateAccount { new_account }) && validated(
            new_account@,
        ) matches Ok(n) && a == AccountView::opened(n, fresh_id, now)),
        transition(state, event, debug, fresh_id, now).1 is Update ==> event matches Event::Found(
            Ok(Some(_)),
        ),
{
}

/// A failed database operation makes the command fail with the text of
/// the database error's response.
pub proof fn lemma_database_failures_reported(
    state: CommandState,
    e: DatabaseError,
    debug: bool,
    fresh_id: u128,
    now: Timestamp,
)
    requires
        !(state is Ready),
        !(state is Done),
    ensures
        ({
            let event = match state {
                CommandState::AwaitingList => Event::Listed(Err(e)),
                CommandState::AwaitingAccount => Event::Found(Err(e)),
                CommandState::AwaitingUpdateTarget(_) => Event::Found(Err(e)),
                CommandState::AwaitingToggleTarget => Event::Found(Err(e)),
                _ => Event::Written(Err(e)),
            };
            accepts(state, event) && transition(state, event, debug, fresh_id, now) == failed(
                database_failure_text(e, debug),
            )
        }),
{
}

/// The accounts table, keyed by identifier, after an action succeeds, as
/// the repository's statements change it: an insert adds the row under its
/// identifier, an update replaces the row with the same identifier and
/// changes nothing when there is none, a delete removes the row with the
/// identifier if there is one, and lookups and replies leave the table as
/// it was.
pub open spec fn table_after(table: Map<u128, AccountView>, action: ActionView) -> Map<
    u128,
    AccountView,
> {
    match action {
        ActionView::Insert(a) => table.insert(a.id, a),
        ActionView::Update(a) => if table.dom().contains(a.id) {
            table.insert(a.id, a)
        } else {
            table
        },
        ActionView::Delete(i) => table.remove(i),
        _ => table,
    }
}

/// A delete command with a well-formed identifier asks the database to
/// delete the row with that identifier and answers `Deleted` once the
/// database reports success, whether or not a row was there. Afterwards no
/// row has the identifier; deleting twice leaves the table as deleting once
/// does; and deleting an identifier that has no row leaves the table as it
/// was.
pub proof fn lemma_delete_idempotent(
    id: String,
    table: Map<u128, AccountView>,
    debug: bool,
    fresh_id: u128,
    now: Timestamp,
)
    requires
        parsed_id(id@) is Ok,
    ensures
        ({
            let u = parsed_id(id@)->Ok_0;
            let t = transition(
                CommandState::Ready,
                (Event::Invoke(Command::DeleteAccount { id })),
                debug,
                fresh_id,
                now,
            );
            let once = table_after(table, t.1);
            &&& t.0 == CommandStateView::AwaitingDelete
            &&& t.1 == ActionView::Delete(u)
            &&& !once.dom().contains(u)
            &&& table_after(once, t.1) == once
            &&& !table.dom().contains(u) ==> once == table
            &&& transition(
                CommandState::AwaitingDelete,
                Event::Written(Ok(())),
                debug,
                fresh_id,
                now,
            ) == replied(ReplyView::Deleted)
        }),
{
    let u = parsed_id(id@)->Ok_0;
    assert(table.remove(u).remove(u) =~= table.remove(u));
    if !table.dom().contains(u) {
        assert(table.remove(u) =~= table);
    }
}

/// The view model shows the account as it is: its identifier and parent in
/// hyphenated form, type and category by name, the balance and times as
/// text, and code, name, description, subcategory and activity copied from
/// the same fields of the account.
pub proof fn lemma_view_model_shows_account(a: AccountView)
    ensures
        view_model(a).id == uuid_text(a.id),
        view_model(a).code == a.code,
        view_model(a).name == a.name,
        view_model(a).description == a.description,
        view_model(a).account_type == a.account_type.name(),
        view_model(a).category == a.category.name(),
        view_model(a).subcategory == a.subcategory,
        view_model(a).is_active == a.is_active,
        a.parent_id is None ==> view_model(a).parent_id is None,
        a.parent_id matches Some(p) ==> view_model(a).parent_id == Some(uuid_text(p)),
        view_model(a).balance == decimal_text(
            a.balance.spec_magnitude(),
            a.balance.spec_negative(),
            a.balance.spec_scale(),
        ),
        view_model(a).created_at == rfc3339_text(a.created_at.seconds(), a.created_at.subsec_nanos()),
        view_model(a).updated_at == rfc3339_text(a.updated_at.seconds(), a.updated_at.subsec_nanos()),
{
}

/// A listing replies with one view model for every account the database
/// returned, in the same order, whatever the accounts hold (inactive ones
/// included).
pub proof fn lemma_listing_shows_every_account(
    accounts: Vec<Account>,
    debug: bool,
    fresh_id: u128,
    now: Timestamp,
)
    ensures
        ({
            let t = transition(
                CommandState::AwaitingList,
                Event::Listed(Ok(accounts)),
                debug,
                fresh_id,
                now,
            );
            &&& t.0 == CommandStateView::Done
            &&& t.1 matches ActionView::Reply(ReplyView::Accounts(v))
            &&& v.len() == accounts@.len()
            &&& forall|j: int|
                0 <= j < accounts@.len() ==> #[trigger] v[j] == view_model(accounts@[j]@)
        }),
{
}

/// Valid input denotes exactly what was submitted: code, name, description
/// and subcategory unchanged, type and category named by the texts in any
/// case, and the parent parsed from its text. A create command with valid
/// input inserts an account opened from it: active, with a zero balance,
/// the fresh identifier, created and updated at the given time, and every
/// submitted field carried over.
pub proof fn lemma_create_carries_input(
    dto: NewAccountDto,
    debug: bool,
    fresh_id: u128,
    now: Timestamp,
)
    ensures
        validated(dto@) matches Ok(n) ==> {
            &&& n.code == dto@.code
            &&& n.name == dto@.name
            &&& n.description == dto@.description
            &&& n.subcategory == dto@.subcategory
            &&& Some(n.account_type) == AccountType::from_name(uppercase_of(dto@.account_type))
            &&& Some(n.category) == AccountCategory::from_name(uppercase_of(dto@.category))
            &&& Ok::<Option<u128>, Seq<char>>(n.parent_id) == parsed_parent(dto@.parent_id)
        },
        ({
            let t = transition(
                CommandState::Ready,
                (Event::Invoke(Command::CreateAccount { new_account: dto })),
                debug,
                fresh_id,
                now,
            );
            validated(dto@) matches Ok(n) ==> t.1 matches ActionView::Insert(a) && {
                &&& a.id == fresh_id
                &&& a.code == n.code
                &&& a.name == n.name
                &&& a.description == n.description
                &&& a.account_type == n.account_type
                &&& a.category == n.category
                &&& a.subcategory == n.subcategory
                &&& a.parent_id == n.parent_id
                &&& a.is_active
                &&& a.balance == Money::zero_value()
                &&& a.created_at == now
                &&& a.updated_at == now
                &&& t.0 == CommandStateView::AwaitingInsert(a)
            }
        }),
        validated(dto@) matches Err(m) ==> transition(
            CommandState::Ready,
            (Event::Invoke(Command::CreateAccount { new_account: dto })),
            debug,
            fresh_id,
            now,
        ) == failed(m),
{
}

} // verus!
