//! What the domain asks of storage. The persistence adaptor implements these
//! traits; every operation may fail with a domain error. An adaptor reports
//! its own failures as `Driver` (or `Convert` for a value it cannot store):
//! a missing record is an empty answer, never `NotFound`, which only the
//! interactors raise.

use vstd::prelude::*;

use crate::entities::{Account, AccountId, AccountName, AccountTypes, Profile};
use crate::error::KernelError;

verus! {

/// Storage of accounts.
pub trait AccountRepository {
    fn create(&self, create: &Account) -> Result<(), KernelError>;

    fn delete(&self, delete: &AccountId) -> (r: Result<(), KernelError>)
        ensures
            !(r matches Err(KernelError::NotFound { .. })),
    ;

    fn find_all(&self) -> Result<Vec<Account>, KernelError>;

    /// The account with identifier `id`, if one is stored.
    fn find_by_id(&self, id: &AccountId) -> (r: Result<Option<Account>, KernelError>)
        ensures
            r matches Ok(Some(found)) ==> found@.id == id@,
            !(r matches Err(KernelError::NotFound { .. })),
    ;

    fn find_by_name(&self, name: &AccountName) -> Result<Option<Account>, KernelError>;
}

/// Storage of profiles, one per account.
pub trait ProfileRepository {
    fn create(&self, create: &Profile) -> Result<(), KernelError>;

    fn update(&self, update: &Profile) -> (r: Result<(), KernelError>)
        ensures
            !(r matches Err(KernelError::NotFound { .. })),
    ;

    /// The profile of the account `id`, if one is stored.
    fn find_by_account_id(&self, id: &AccountId) -> (r: Result<Option<Profile>, KernelError>)
        ensures
            r matches Ok(Some(found)) ==> found@.account == id@,
            !(r matches Err(KernelError::NotFound { .. })),
    ;
}

/// Storage of follow relations. No adaptor implements it yet.
pub trait FollowRepository {
    fn add(account: &AccountTypes) -> Result<(), KernelError>;

    fn remove(account: &AccountTypes) -> Result<(), KernelError>;

    fn find_all_by_src(id: &AccountId) -> Result<Vec<AccountTypes>, KernelError>;

    fn find_all_by_local(id: &AccountId) -> Result<Vec<AccountId>, KernelError>;
}

} // verus!
