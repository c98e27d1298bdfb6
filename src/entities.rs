mod account;
mod follow;
mod profile;
mod update_time;

pub use self::account::{
    account_id_text, decimal, digit_char, lemma_account_parts_round_trip, lemma_account_round_trip,
    signed_decimal, Account, AccountId, AccountName, AccountView, DestructAccount, IsBot,
    ACCOUNT_ID_MAX, ACCOUNT_ID_MIN,
};
pub use self::follow::{AccountTypes, Follow};
pub use self::profile::{
    is_random_uuid, lemma_profile_parts_round_trip, lemma_profile_round_trip, parsed_uuid,
    uuid_failure_prefix, Banner, DestructProfile, DisplayName, Icon, Profile, ProfileId,
    ProfileView, Summary,
};
pub use self::update_time::{
    lemma_update_time_parts_round_trip, lemma_update_time_round_trip, CreatedAt,
    DestructUpdateTime, Timestamp, UpdateTime, UpdatedAt,
};
pub(crate) use self::update_time::current_time;
