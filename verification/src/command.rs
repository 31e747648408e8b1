//! The command vocabulary of the actor: what callers ask, what the store
//! is asked in turn, and what comes back.

use vstd::prelude::*;
use crate::error::DataError;
use crate::schema::AdminUser;
use crate::schema::Page;
use crate::schema::PageModel;
use crate::schema::UserModel;

verus! {

/// Every command that can be issued to the data-access actor. The request
/// facade pairs one of these with a single-use reply slot and places the
/// pair on the actor's inbound queue.
pub enum DatabaseMpscCommand {
    /// Read the page at the path; the flag skips the cache lookup.
    GetPage(String, bool),
    /// Update an existing page.
    SetPage(Page),
    /// Delete the page at the path.
    DeletePage(String),
    /// Create a page; an existing path is a conflict.
    NewPage(Page),
    /// Read the user with the id; the flag skips the cache lookup.
    GetUser(u128, bool),
    /// Update an existing user.
    SetUser(AdminUser),
    /// Delete the user with the id.
    DeleteUser(u128),
    /// Create a user; an existing id is a conflict.
    NewUser(AdminUser),
}

/// The mathematical value of a [`DatabaseMpscCommand`].
pub enum CommandModel {
    GetPage(Seq<char>, bool),
    SetPage(PageModel),
    DeletePage(Seq<char>),
    NewPage(PageModel),
    GetUser(u128, bool),
    SetUser(UserModel),
    DeleteUser(u128),
    NewUser(UserModel),
}

impl View for DatabaseMpscCommand {
    type V = CommandModel;

    open spec fn view(&self) -> CommandModel {
        match self {
            DatabaseMpscCommand::GetPage(path, skip) => CommandModel::GetPage(path@, *skip),
            DatabaseMpscCommand::SetPage(page) => CommandModel::SetPage(page@),
            DatabaseMpscCommand::DeletePage(path) => CommandModel::DeletePage(path@),
            DatabaseMpscCommand::NewPage(page) => CommandModel::NewPage(page@),
            DatabaseMpscCommand::GetUser(id, skip) => CommandModel::GetUser(*id, *skip),
            DatabaseMpscCommand::SetUser(user) => CommandModel::SetUser(user@),
            DatabaseMpscCommand::DeleteUser(id) => CommandModel::DeleteUser(*id),
            DatabaseMpscCommand::NewUser(user) => CommandModel::NewUser(user@),
        }
    }
}

/// A typed read or write operation for the store adapter to execute.
pub enum StoreRequest {
    /// `SELECT` the page row at the path.
    FetchPage(String),
    /// `UPDATE` the page row keyed by the page's path.
    UpdatePage(Page),
    /// `INSERT` the page row.
    InsertPage(Page),
    /// `DELETE` the page row at the path.
    RemovePage(String),
    /// `SELECT` the user row with the id.
    FetchUser(u128),
    /// `UPDATE` the user row keyed by the user's id.
    UpdateUser(AdminUser),
    /// `INSERT` the user row.
    InsertUser(AdminUser),
    /// `DELETE` the user row with the id.
    RemoveUser(u128),
}

/// The mathematical value of a [`StoreRequest`].
pub enum RequestModel {
    FetchPage(Seq<char>),
    UpdatePage(PageModel),
    InsertPage(PageModel),
    RemovePage(Seq<char>),
    FetchUser(u128),
    UpdateUser(UserModel),
    InsertUser(UserModel),
    RemoveUser(u128),
}

impl View for StoreRequest {
    type V = RequestModel;

    open spec fn view(&self) -> RequestModel {
        match self {
            StoreRequest::FetchPage(path) => RequestModel::FetchPage(path@),
            StoreRequest::UpdatePage(page) => RequestModel::UpdatePage(page@),
            StoreRequest::InsertPage(page) => RequestModel::InsertPage(page@),
            StoreRequest::RemovePage(path) => RequestModel::RemovePage(path@),
            StoreRequest::FetchUser(id) => RequestModel::FetchUser(*id),
            StoreRequest::UpdateUser(user) => RequestModel::UpdateUser(user@),
            StoreRequest::InsertUser(user) => RequestModel::InsertUser(user@),
            StoreRequest::RemoveUser(id) => RequestModel::RemoveUser(*id),
        }
    }
}

/// What a command resolves to: the outcome the store adapter reported and,
/// unchanged, the reply the actor sends back to the caller.
pub enum Outcome {
    /// A fetched page row.
    PageFound(Page),
    /// A fetched user row.
    UserFound(AdminUser),
    /// A write completed.
    Done,
    /// The operation failed; the error passes through to the caller
    /// untouched.
    Failed(DataError),
}

/// The mathematical value of an [`Outcome`].
pub enum OutcomeModel {
    PageFound(PageModel),
    UserFound(UserModel),
    Done,
    Failed(DataError),
}

impl View for Outcome {
    type V = OutcomeModel;

    open spec fn view(&self) -> OutcomeModel {
        match self {
            Outcome::PageFound(page) => OutcomeModel::PageFound(page@),
            Outcome::UserFound(user) => OutcomeModel::UserFound(user@),
            Outcome::Done => OutcomeModel::Done,
            Outcome::Failed(e) => OutcomeModel::Failed(*e),
        }
    }
}

impl Outcome {
    /// What a page read resolves to for the caller: the fetched page, the
    /// error passed through, and for an outcome no page read can produce
    /// the internal-error signal.
    pub fn into_page_result(self) -> (r: Result<Page, DataError>)
        ensures
            match self@ {
                OutcomeModel::PageFound(pm) => r matches Ok(p) && p@ == pm,
                OutcomeModel::Failed(e) => r == Err::<Page, DataError>(e),
                _ => r == Err::<Page, DataError>(DataError::ReplyLost),
            },
    {
        match self {
            Outcome::PageFound(page) => Ok(page),
            Outcome::Failed(e) => Err(e),
            _ => Err(DataError::ReplyLost),
        }
    }

    /// What a user read resolves to for the caller.
    pub fn into_user_result(self) -> (r: Result<AdminUser, DataError>)
        ensures
            match self@ {
                OutcomeModel::UserFound(um) => r matches Ok(u) && u@ == um,
                OutcomeModel::Failed(e) => r == Err::<AdminUser, DataError>(e),
                _ => r == Err::<AdminUser, DataError>(DataError::ReplyLost),
            },
    {
        match self {
            Outcome::UserFound(user) => Ok(user),
            Outcome::Failed(e) => Err(e),
            _ => Err(DataError::ReplyLost),
        }
    }

    /// What a write resolves to for the caller.
    pub fn into_unit_result(self) -> (r: Result<(), DataError>)
        ensures
            match self@ {
                OutcomeModel::Done => r is Ok,
                OutcomeModel::Failed(e) => r == Err::<(), DataError>(e),
                _ => r == Err::<(), DataError>(DataError::ReplyLost),
            },
    {
        match self {
            Outcome::Done => Ok(()),
            Outcome::Failed(e) => Err(e),
            _ => Err(DataError::ReplyLost),
        }
    }
}

/// What the actor decides to do next with a command: answer it from the
/// cache at once, or put a request to the store first.
pub enum Step {
    /// Reply immediately; the store is not consulted.
    Reply(Outcome),
    /// Execute this request against the store, then settle.
    Store(StoreRequest),
}

/// The mathematical value of a [`Step`].
pub enum StepModel {
    Reply(OutcomeModel),
    Store(RequestModel),
}

impl View for Step {
    type V = StepModel;

    open spec fn view(&self) -> StepModel {
        match self {
            Step::Reply(outcome) => StepModel::Reply(outcome@),
            Step::Store(request) => StepModel::Store(request@),
        }
    }
}

} // verus!
