mod account;
mod profile;

pub use self::account::{
    account_to_create, account_to_delete, deleted, stored_account, CreateAccountInteractor,
    DeleteAccountInteractor,
};
pub use self::profile::{
    lemma_update_keeps_creation_time, profile_to_create, profile_to_update, stored_profile,
    updated_profile, CreateProfileInteractor, UpdateProfileInteractor,
};
