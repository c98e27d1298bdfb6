use vstd::prelude::*;

use crate::adaptor::{CreateAccountAdaptor, DeleteAccountAdaptor};
use crate::entities::{
    account_id_text, current_time, Account, AccountId, AccountView, Timestamp, ACCOUNT_ID_MAX,
    ACCOUNT_ID_MIN,
};
use crate::error::{application_error_of, ApplicationError, KernelError};
use crate::repository::AccountRepository;
use crate::transfer::{AccountDto, CreateAccountDto};

verus! {

/// The account that a create request makes: identifier `id`, the requested
/// name and flag, and both instants set to `now`.
pub fn account_to_create(id: AccountId, request: CreateAccountDto, now: Timestamp) -> (a: Account)
    ensures
        a@ == (AccountView {
            id: id@,
            name: request.name@,
            bot: request.bot,
            created_at: now@,
            updated_at: now@,
        }),
{
    let CreateAccountDto { name, bot } = request;
    Account::new(id.into(), name, bot, now, now)
}

/// What creating `account` returns once storage has answered `stored`: the
/// account's projection, or the storage error in application terms.
pub fn stored_account(account: Account, stored: Result<(), KernelError>) -> (r: Result<
    AccountDto,
    ApplicationError,
>)
    ensures
        stored is Ok ==> (r matches Ok(dto) && dto@ == account@),
        stored matches Err(e) ==> (r matches Err(x) && x == application_error_of(e)),
{
    match stored {
        Ok(()) => Ok(AccountDto::from(account)),
        Err(e) => Err(ApplicationError::from(e)),
    }
}

/// Whether deleting the account `id` may go on, given storage's answer to
/// looking it up: a failed lookup comes back as its error in application
/// terms, an empty one as `NotFound`; in both cases no delete follows.
pub fn account_to_delete(id: AccountId, looked_up: Result<Option<Account>, KernelError>) -> (r:
    Result<(), ApplicationError>)
    ensures
        looked_up matches Ok(Some(_)) <==> r is Ok,
        looked_up matches Err(e) ==> (r matches Err(x) && x == application_error_of(e)),
        looked_up matches Ok(None) ==> (r matches Err(
            ApplicationError::NotFound { method, entity, id: text },
        ) && method == "delete" && entity == "account" && text@ == account_id_text(id@)),
{
    match looked_up {
        Err(e) => Err(ApplicationError::from(e)),
        Ok(Some(_)) => Ok(()),
        Ok(None) => Err(
            ApplicationError::NotFound {
                method: "delete",
                entity: "account",
                id: id.debug_text(),
            },
        ),
    }
}

/// What deleting returns once storage has answered the delete call: nothing,
/// or the storage error in application terms.
pub fn deleted(stored: Result<(), KernelError>) -> (r: Result<(), ApplicationError>)
    ensures
        stored is Ok ==> r is Ok,
        stored matches Err(e) ==> (r matches Err(x) && x == application_error_of(e)),
{
    match stored {
        Ok(()) => Ok(()),
        Err(e) => Err(ApplicationError::from(e)),
    }
}

/// Creates accounts, with a fresh random identifier, stamped with the
/// current instant.
pub struct CreateAccountInteractor<T> {
    repo: T,
}

impl<T> CreateAccountInteractor<T> {
    pub fn new(repo: T) -> (r: Self)
        ensures
            r.repository() == repo,
    {
        CreateAccountInteractor { repo }
    }

    /// The storage that this use case writes to.
    pub closed spec fn repository(&self) -> T {
        self.repo
    }
}

impl<T: AccountRepository> CreateAccountAdaptor for CreateAccountInteractor<T> {
    /// Stores a new account and returns it; there is no check for an account
    /// of the same name.
    fn create(&self, account: CreateAccountDto) -> (r: Result<AccountDto, ApplicationError>)
        ensures
            r matches Ok(dto) ==> {
                &&& dto.name@ == account.name@
                &&& dto.bot == account.bot
                &&& ACCOUNT_ID_MIN <= dto.id <= ACCOUNT_ID_MAX
                &&& dto.created_at@ == dto.updated_at@
            },
    {
        let id = AccountId::default();
        let now = current_time();
        let created = account_to_create(id, account, now);
        let stored = self.repo.create(&created);
        stored_account(created, stored)
    }
}

/// Deletes accounts that exist. The account's profile is left alone.
pub struct DeleteAccountInteractor<T> {
    repo: T,
}

impl<T> DeleteAccountInteractor<T> {
    pub fn new(repo: T) -> (r: Self)
        ensures
            r.repository() == repo,
    {
        DeleteAccountInteractor { repo }
    }

    /// The storage that this use case deletes from.
    pub closed spec fn repository(&self) -> T {
        self.repo
    }
}

impl<T: AccountRepository> DeleteAccountAdaptor for DeleteAccountInteractor<T> {
    /// Looks the account up, then deletes it; fails with `NotFound` when
    /// there is no such account. The outcome for each answer of storage is
    /// that of `account_to_delete`, then of `deleted`.
    fn delete(&self, id: i64) -> (r: Result<(), ApplicationError>)
        ensures
            r matches Err(ApplicationError::NotFound { method, entity, id: text }) ==> method
                == "delete" && entity == "account" && text@ == account_id_text(id),
    {
        let id = AccountId::new(id);
        let looked_up = self.repo.find_by_id(&id);
        match account_to_delete(id, looked_up) {
            Ok(()) => {},
            Err(e) => return Err(e),
        }
        deleted(self.repo.delete(&id))
    }
}

} // verus!
