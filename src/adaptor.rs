//! The use cases as the transport layer sees them. The interactors implement
//! these traits.

use vstd::prelude::*;

use crate::error::ApplicationError;
use crate::transfer::{AccountDto, CreateAccountDto, CreateProfileDto, ProfileDto, UpdateProfileDto};

verus! {

pub trait CreateAccountAdaptor {
    fn create(&self, account: CreateAccountDto) -> Result<AccountDto, ApplicationError>;
}

pub trait DeleteAccountAdaptor {
    fn delete(&self, id: i64) -> Result<(), ApplicationError>;
}

pub trait CreateProfileAdaptor {
    fn create(&self, account: i64, profile: CreateProfileDto) -> Result<
        ProfileDto,
        ApplicationError,
    >;
}

pub trait UpdateProfileAdaptor {
    fn update(&self, account: i64, profile: UpdateProfileDto) -> Result<
        ProfileDto,
        ApplicationError,
    >;
}

} // verus!
