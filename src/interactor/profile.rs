use vstd::prelude::*;

use crate::adaptor::{CreateProfileAdaptor, UpdateProfileAdaptor};
use crate::entities::{
    account_id_text, current_time, is_random_uuid, AccountId, Banner, DestructUpdateTime,
    DisplayName, Icon, Profile, ProfileId, ProfileView, Summary, Timestamp, UpdateTime,
};
use crate::error::{application_error_of, ApplicationError, KernelError};
use crate::repository::ProfileRepository;
use crate::transfer::{CreateProfileDto, ProfileDto, UpdateProfileDto};

verus! {

/// The profile that a create request makes for `account`: identifier `id`,
/// the requested content, and both instants set to `now`.
pub fn profile_to_create(
    id: ProfileId,
    account: AccountId,
    request: CreateProfileDto,
    now: Timestamp,
) -> (p: Profile)
    ensures
        p@ == (ProfileView {
            id: id@,
            account: account@,
            created_at: now@,
            updated_at: now@,
            name: request.display_name@,
            summary: request.summary@,
            icon: request.icon@,
            banner: request.banner@,
        }),
{
    let CreateProfileDto { display_name, summary, icon, banner } = request;
    Profile::new(id.into(), account.into(), now, now, display_name, summary, icon, banner)
}

/// What writing `profile` returns once storage has answered `stored`: the
/// profile's projection, or the storage error in application terms.
pub fn stored_profile(profile: Profile, stored: Result<(), KernelError>) -> (r: Result<
    ProfileDto,
    ApplicationError,
>)
    ensures
        stored is Ok ==> (r matches Ok(dto) && dto@ == profile@),
        stored matches Err(e) ==> (r matches Err(x) && x == application_error_of(e)),
{
    match stored {
        Ok(()) => Ok(ProfileDto::from(profile)),
        Err(e) => Err(ApplicationError::from(e)),
    }
}

/// A profile after an update at `now`: identifier, owner and creation
/// instant kept, every content field replaced by the request's, updated at
/// `now`.
pub open spec fn updated_profile(
    old: ProfileView,
    request: UpdateProfileDto,
    now: i128,
) -> ProfileView {
    ProfileView {
        id: old.id,
        account: old.account,
        created_at: old.created_at,
        updated_at: now,
        name: request.display_name@,
        summary: request.summary@,
        icon: request.icon@,
        banner: request.banner@,
    }
}

/// The profile that an update of the account `account` writes, given
/// storage's answer to looking its profile up: a failed lookup comes back as
/// its error in application terms, an empty one as `NotFound`; in both cases
/// nothing is written.
pub fn profile_to_update(
    account: AccountId,
    looked_up: Result<Option<Profile>, KernelError>,
    request: UpdateProfileDto,
    now: Timestamp,
) -> (r: Result<Profile, ApplicationError>)
    ensures
        looked_up matches Ok(Some(p)) ==> (r matches Ok(q) && q@ == updated_profile(
            p@,
            request,
            now@,
        )),
        looked_up matches Err(e) ==> (r matches Err(x) && x == application_error_of(e)),
        looked_up matches Ok(None) ==> (r matches Err(ApplicationError::NotFound { method, entity, id: text })
            && method == "update" && entity == "profile" && text@ == account_id_text(account@)),
{
    let found = match looked_up {
        Err(e) => return Err(ApplicationError::from(e)),
        Ok(Some(item)) => item,
        Ok(None) => {
            return Err(
                ApplicationError::NotFound {
                    method: "update",
                    entity: "profile",
                    id: account.debug_text(),
                },
            );
        },
    };
    let mut destructed = found.into_destruct();
    let DestructUpdateTime { created_at, .. } = destructed.date.into_destruct();
    destructed.name = DisplayName::new(request.display_name);
    destructed.summary = Summary::new(request.summary);
    destructed.icon = Icon::new(request.icon);
    destructed.banner = Banner::new(request.banner);
    destructed.date = UpdateTime::new(created_at.timestamp(), now);
    Ok(destructed.freeze())
}

/// An update keeps the creation instant of the profile, and once the clock
/// has passed that instant, the profile is updated later than it was created.
pub proof fn lemma_update_keeps_creation_time(
    old: ProfileView,
    request: UpdateProfileDto,
    now: i128,
)
    requires
        now > old.created_at,
    ensures
        updated_profile(old, request, now).created_at == old.created_at,
        updated_profile(old, request, now).updated_at > old.created_at,
{
}

/// Creates profiles, with a fresh random identifier, stamped with the
/// current instant. The owning account is not looked up.
pub struct CreateProfileInteractor<T> {
    repo: T,
}

impl<T> CreateProfileInteractor<T> {
    pub fn new(repo: T) -> (r: Self)
        ensures
            r.repository() == repo,
    {
        CreateProfileInteractor { repo }
    }

    /// The storage that this use case writes to.
    pub closed spec fn repository(&self) -> T {
        self.repo
    }
}

impl<T: ProfileRepository> CreateProfileAdaptor for CreateProfileInteractor<T> {
    /// Stores a new profile for `account` and returns it.
    fn create(&self, account: i64, profile: CreateProfileDto) -> (r: Result<
        ProfileDto,
        ApplicationError,
    >)
        ensures
            r matches Ok(dto) ==> {
                &&& is_random_uuid(dto.id)
                &&& dto.account == account
                &&& dto.create_at@ == dto.update_at@
                &&& dto.display_name@ == profile.display_name@
                &&& dto.summary@ == profile.summary@
                &&& dto.icon_url@ == profile.icon@
                &&& dto.banner_url@ == profile.banner@
            },
    {
        let profile_id = ProfileId::default();
        let account_id = AccountId::new(account);
        let now = current_time();
        let created = profile_to_create(profile_id, account_id, profile, now);
        let stored = self.repo.create(&created);
        stored_profile(created, stored)
    }
}

/// Replaces the content of an account's profile.
pub struct UpdateProfileInteractor<T> {
    repo: T,
}

impl<T> UpdateProfileInteractor<T> {
    pub fn new(repo: T) -> (r: Self)
        ensures
            r.repository() == repo,
    {
        UpdateProfileInteractor { repo }
    }

    /// The storage that this use case reads and writes.
    pub closed spec fn repository(&self) -> T {
        self.repo
    }
}

impl<T: ProfileRepository> UpdateProfileAdaptor for UpdateProfileInteractor<T> {
    /// Looks up the profile of `account`, replaces all four content fields,
    /// keeps the creation instant, stamps the current instant as the update,
    /// and stores it; fails with `NotFound` when the account has no profile.
    /// The outcome for each answer of storage is that of `profile_to_update`,
    /// then of `stored_profile`.
    fn update(&self, account: i64, profile: UpdateProfileDto) -> (r: Result<
        ProfileDto,
        ApplicationError,
    >)
        ensures
            r matches Err(ApplicationError::NotFound { method, entity, id: text }) ==> method
                == "update" && entity == "profile" && text@ == account_id_text(account),
            r matches Ok(dto) ==> {
                &&& dto.account == account
                &&& dto.display_name@ == profile.display_name@
                &&& dto.summary@ == profile.summary@
                &&& dto.icon_url@ == profile.icon@
                &&& dto.banner_url@ == profile.banner@
            },
    {
        let id = AccountId::new(account);
        let looked_up = self.repo.find_by_account_id(&id);
        let now = current_time();
        let patched = match profile_to_update(id, looked_up, profile, now) {
            Ok(patched) => patched,
            Err(e) => return Err(e),
        };
        let stored = self.repo.update(&patched);
        stored_profile(patched, stored)
    }
}

} // verus!
