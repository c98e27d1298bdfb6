//! Flat projections of the entities that cross the use-case boundary.

use vstd::prelude::*;

use crate::entities::{
    Account, AccountView, DestructAccount, DestructProfile, DestructUpdateTime, Profile,
    ProfileView, Timestamp,
};

verus! {

/// An account as handed out of a use case.
#[derive(Debug)]
pub struct AccountDto {
    pub id: i64,
    pub name: String,
    pub bot: bool,
    pub created_at: Timestamp,
    pub updated_at: Timestamp,
}

impl View for AccountDto {
    type V = AccountView;

    open spec fn view(&self) -> AccountView {
        AccountView {
            id: self.id,
            name: self.name@,
            bot: self.bot,
            created_at: self.created_at@,
            updated_at: self.updated_at@,
        }
    }
}

impl From<Account> for AccountDto {
    fn from(internal: Account) -> (r: AccountDto)
        ensures
            r@ == internal@,
    {
        let DestructAccount { id, name, bot, date } = internal.into_destruct();
        let DestructUpdateTime { created_at, updated_at } = date.into_destruct();
        AccountDto {
            id: id.into(),
            name: name.into(),
            bot: bot.into(),
            created_at: created_at.timestamp(),
            updated_at: updated_at.timestamp(),
        }
    }
}

/// The projection is stated by the `ensures` of `from` above, over views.
impl vstd::std_specs::convert::FromSpecImpl<Account> for AccountDto {
    open spec fn obeys_from_spec() -> bool {
        false
    }

    open spec fn from_spec(internal: Account) -> AccountDto {
        arbitrary()
    }
}

/// What it takes to create an account.
#[derive(Debug)]
pub struct CreateAccountDto {
    pub name: String,
    pub bot: bool,
}

impl CreateAccountDto {
    pub fn new(name: String, bot: bool) -> (r: CreateAccountDto)
        ensures
            r.name@ == name@,
            r.bot == bot,
    {
        CreateAccountDto { name, bot }
    }
}

/// A profile as handed out of a use case.
#[derive(Debug)]
pub struct ProfileDto {
    pub id: u128,
    pub account: i64,
    pub create_at: Timestamp,
    pub update_at: Timestamp,
    pub display_name: String,
    pub summary: String,
    pub icon_url: String,
    pub banner_url: String,
}

impl View for ProfileDto {
    type V = ProfileView;

    open spec fn view(&self) -> ProfileView {
        ProfileView {
            id: self.id,
            account: self.account,
            created_at: self.create_at@,
            updated_at: self.update_at@,
            name: self.display_name@,
            summary: self.summary@,
            icon: self.icon_url@,
            banner: self.banner_url@,
        }
    }
}

impl From<Profile> for ProfileDto {
    fn from(internal: Profile) -> (r: ProfileDto)
        ensures
            r@ == internal@,
    {
        let DestructProfile { id, date, name, summary, icon, banner, account } =
            internal.into_destruct();
        let DestructUpdateTime { created_at, updated_at } = date.into_destruct();
        ProfileDto {
            id: id.into(),
            account: account.into(),
            create_at: created_at.timestamp(),
            update_at: updated_at.timestamp(),
            display_name: name.into(),
            summary: summary.into(),
            icon_url: icon.into(),
            banner_url: banner.into(),
        }
    }
}

/// The projection is stated by the `ensures` of `from` above, over views.
impl vstd::std_specs::convert::FromSpecImpl<Profile> for ProfileDto {
    open spec fn obeys_from_spec() -> bool {
        false
    }

    open spec fn from_spec(internal: Profile) -> ProfileDto {
        arbitrary()
    }
}

/// What it takes to create a profile.
#[derive(Debug)]
pub struct CreateProfileDto {
    pub display_name: String,
    pub summary: String,
    pub icon: String,
    pub banner: String,
}

impl CreateProfileDto {
    pub fn new(display_name: String, summary: String, icon: String, banner: String) -> (r:
        CreateProfileDto)
        ensures
            r.display_name@ == display_name@,
            r.summary@ == summary@,
            r.icon@ == icon@,
            r.banner@ == banner@,
    {
        CreateProfileDto { display_name, summary, icon, banner }
    }
}

/// The new content of a profile. Every field replaces the stored one.
#[derive(Debug)]
pub struct UpdateProfileDto {
    pub id: u128,
    pub display_name: String,
    pub summary: String,
    pub icon: String,
    pub banner: String,
}

impl UpdateProfileDto {
    pub fn new(id: u128, display_name: String, summary: String, icon: String, banner: String) -> (r:
        UpdateProfileDto)
        ensures
            r.id == id,
            r.display_name@ == display_name@,
            r.summary@ == summary@,
            r.icon@ == icon@,
            r.banner@ == banner@,
    {
        UpdateProfileDto { id, display_name, summary, icon, banner }
    }
}

} // verus!
