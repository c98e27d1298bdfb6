use vstd::prelude::*;
use vstd::string::StringExecFns;

use super::account::AccountId;
use super::update_time::{Timestamp, UpdateTime};
use crate::error::KernelError;

verus! {

/// Whether `id`, read as a UUID, is a random one: version 4, RFC 4122 variant.
pub open spec fn is_random_uuid(id: u128) -> bool {
    &&& (id >> 76u128) & 0xfu128 == 4u128
    &&& (id >> 62u128) & 0x3u128 == 2u128
}

/// Relies on `uuid::Uuid::new_v4`, read as an integer by `Uuid::as_u128`:
/// random bits, with the version nibble masked to 4 and the variant bits to
/// those of RFC 4122.
#[verifier::external_body]
fn random_uuid() -> (r: u128)
    ensures
        is_random_uuid(r),
{
    uuid::Uuid::new_v4().as_u128()
}

/// `uuid::Error`, carried as an opaque value.
#[verifier::external_type_specification]
#[verifier::external_body]
pub struct ExUuidError(uuid::Error);

/// The UUID that `text` writes, if it writes one.
pub uninterp spec fn parsed_uuid(text: Seq<char>) -> Option<u128>;

/// Relies on `uuid::Uuid::try_parse`, read as an integer by `Uuid::as_u128`:
/// whether `text` is a UUID in one of the forms it reads (simple, hyphenated,
/// braced, URN), and which one, depends on the text alone. None of those
/// forms is empty.
#[verifier::external_body]
fn parse_uuid(text: &str) -> (r: Result<u128, uuid::Error>)
    ensures
        r is Ok <==> parsed_uuid(text@) is Some,
        r matches Ok(v) ==> parsed_uuid(text@) == Some(v),
        text@.len() == 0 ==> r is Err,
{
    match uuid::Uuid::try_parse(text) {
        Ok(id) => Ok(id.as_u128()),
        Err(e) => Err(e),
    }
}

/// Relies on `ToString::to_string` of `uuid::Error`, which writes its
/// `Display` message.
#[verifier::external_body]
fn uuid_error_text(e: &uuid::Error) -> String {
    e.to_string()
}

/// How a failed UUID read begins its message.
pub open spec fn uuid_failure_prefix() -> Seq<char> {
    "failed parse uuid from &str. `uuid`: "@
}

/// The identifier of a profile: a UUID, held as its 128-bit integer.
#[derive(Debug, Clone, Copy, Hash, PartialEq, Eq, Structural)]
pub struct ProfileId(u128);

impl View for ProfileId {
    type V = u128;

    closed spec fn view(&self) -> u128 {
        self.0
    }
}

impl ProfileId {
    pub fn new(id: u128) -> (r: ProfileId)
        ensures
            r@ == id,
    {
        ProfileId(id)
    }

    /// Two identifiers are equal exactly when their values are.
    pub proof fn lemma_value_equal(a: ProfileId, b: ProfileId)
        ensures
            a == b <==> a@ == b@,
    {
    }

    /// The identifier that a UUID read gave, or a `Convert` error that
    /// carries the reader's message.
    pub fn from_parsed(parsed: Result<u128, uuid::Error>) -> (r: Result<ProfileId, KernelError>)
        ensures
            parsed matches Ok(v) ==> (r matches Ok(id) && id@ == v),
            parsed is Err ==> (r matches Err(KernelError::Convert(msg))
                && uuid_failure_prefix().is_prefix_of(msg@)),
    {
        match parsed {
            Ok(v) => Ok(ProfileId(v)),
            Err(e) => {
                let mut msg = String::from_str("failed parse uuid from &str. `uuid`: ");
                let text = uuid_error_text(&e);
                msg.append(text.as_str());
                assert(uuid_failure_prefix() =~= msg@.subrange(
                    0,
                    uuid_failure_prefix().len() as int,
                ));
                Err(KernelError::Convert(msg))
            },
        }
    }
}

impl Default for ProfileId {
    /// A fresh random (version 4) UUID.
    fn default() -> (r: ProfileId)
        ensures
            is_random_uuid(r@),
    {
        ProfileId(random_uuid())
    }
}

impl TryFrom<&str> for ProfileId {
    type Error = KernelError;

    /// Reads a UUID written out; text that is none fails with `Convert`.
    fn try_from(value: &str) -> (r: Result<ProfileId, KernelError>)
        ensures
            parsed_uuid(value@) matches Some(v) ==> (r matches Ok(id) && id@ == v),
            parsed_uuid(value@) is None ==> (r matches Err(KernelError::Convert(msg))
                && uuid_failure_prefix().is_prefix_of(msg@)),
            value@.len() == 0 ==> r is Err,
    {
        ProfileId::from_parsed(parse_uuid(value))
    }
}

/// What a read returns is stated by the `ensures` of `try_from` above, not by
/// a spec function.
impl vstd::std_specs::convert::TryFromSpecImpl<&str> for ProfileId {
    open spec fn obeys_try_from_spec() -> bool {
        false
    }

    open spec fn try_from_spec(value: &str) -> Result<ProfileId, KernelError> {
        arbitrary()
    }
}

impl AsRef<u128> for ProfileId {
    fn as_ref(&self) -> (r: &u128)
        ensures
            *r == self@,
    {
        &self.0
    }
}

impl From<ProfileId> for u128 {
    fn from(id: ProfileId) -> (r: u128) {
        id.0
    }
}

impl vstd::std_specs::convert::FromSpecImpl<ProfileId> for u128 {
    open spec fn obeys_from_spec() -> bool {
        true
    }

    open spec fn from_spec(id: ProfileId) -> u128 {
        id@
    }
}

/// The name a profile shows.
#[derive(Debug, Clone, Hash, PartialEq, Eq)]
pub struct DisplayName(String);

impl View for DisplayName {
    type V = Seq<char>;

    closed spec fn view(&self) -> Seq<char> {
        self.0@
    }
}

impl DisplayName {
    pub fn new(name: String) -> (r: DisplayName)
        ensures
            r@ == name@,
    {
        DisplayName(name)
    }
}

impl AsRef<str> for DisplayName {
    fn as_ref(&self) -> (r: &str)
        ensures
            r@ == self@,
    {
        self.0.as_str()
    }
}

impl From<DisplayName> for String {
    fn from(name: DisplayName) -> (r: String)
        ensures
            r@ == name@,
    {
        name.0
    }
}

impl vstd::std_specs::convert::FromSpecImpl<DisplayName> for String {
    open spec fn obeys_from_spec() -> bool {
        true
    }

    closed spec fn from_spec(name: DisplayName) -> String {
        name.0
    }
}

/// A short text about the owner of a profile; empty by default.
#[derive(Debug, Clone, Hash, PartialEq, Eq)]
pub struct Summary(String);

impl View for Summary {
    type V = Seq<char>;

    closed spec fn view(&self) -> Seq<char> {
        self.0@
    }
}

impl Summary {
    pub fn new(summary: String) -> (r: Summary)
        ensures
            r@ == summary@,
    {
        Summary(summary)
    }
}

impl Default for Summary {
    fn default() -> (r: Summary)
        ensures
            r@ == Seq::<char>::empty(),
    {
        Summary(String::new())
    }
}

impl AsRef<str> for Summary {
    fn as_ref(&self) -> (r: &str)
        ensures
            r@ == self@,
    {
        self.0.as_str()
    }
}

impl From<Summary> for String {
    fn from(text: Summary) -> (r: String)
        ensures
            r@ == text@,
    {
        text.0
    }
}

impl vstd::std_specs::convert::FromSpecImpl<Summary> for String {
    open spec fn obeys_from_spec() -> bool {
        true
    }

    closed spec fn from_spec(text: Summary) -> String {
        text.0
    }
}

/// Where the icon of a profile is found; empty by default.
#[derive(Debug, Clone, Hash, PartialEq, Eq)]
pub struct Icon(String);

impl View for Icon {
    type V = Seq<char>;

    closed spec fn view(&self) -> Seq<char> {
        self.0@
    }
}

impl Icon {
    pub fn new(url: String) -> (r: Icon)
        ensures
            r@ == url@,
    {
        Icon(url)
    }
}

impl Default for Icon {
    fn default() -> (r: Icon)
        ensures
            r@ == Seq::<char>::empty(),
    {
        Icon(String::new())
    }
}

impl AsRef<str> for Icon {
    fn as_ref(&self) -> (r: &str)
        ensures
            r@ == self@,
    {
        self.0.as_str()
    }
}

impl From<Icon> for String {
    fn from(url: Icon) -> (r: String)
        ensures
            r@ == url@,
    {
        url.0
    }
}

impl vstd::std_specs::convert::FromSpecImpl<Icon> for String {
    open spec fn obeys_from_spec() -> bool {
        true
    }

    closed spec fn from_spec(url: Icon) -> String {
        url.0
    }
}

/// Where the banner of a profile is found; empty by default.
#[derive(Debug, Clone, Hash, PartialEq, Eq)]
pub struct Banner(String);

impl View for Banner {
    type V = Seq<char>;

    closed spec fn view(&self) -> Seq<char> {
        self.0@
    }
}

impl Banner {
    pub fn new(url: String) -> (r: Banner)
        ensures
            r@ == url@,
    {
        Banner(url)
    }
}

impl Default for Banner {
    fn default() -> (r: Banner)
        ensures
            r@ == Seq::<char>::empty(),
    {
        Banner(String::new())
    }
}

impl AsRef<str> for Banner {
    fn as_ref(&self) -> (r: &str)
        ensures
            r@ == self@,
    {
        self.0.as_str()
    }
}

impl From<Banner> for String {
    fn from(url: Banner) -> (r: String)
        ensures
            r@ == url@,
    {
        url.0
    }
}

impl vstd::std_specs::convert::FromSpecImpl<Banner> for String {
    open spec fn obeys_from_spec() -> bool {
        true
    }

    closed spec fn from_spec(url: Banner) -> String {
        url.0
    }
}

/// What a profile holds, as contracts see it.
pub struct ProfileView {
    pub id: u128,
    pub account: i64,
    pub created_at: i128,
    pub updated_at: i128,
    pub name: Seq<char>,
    pub summary: Seq<char>,
    pub icon: Seq<char>,
    pub banner: Seq<char>,
}

/// The profile of an account, which it refers to by identifier. It has no
/// setters: to change one, take it apart with `into_destruct`, replace parts,
/// and `freeze` a new profile.
#[derive(Debug, Clone, Hash, PartialEq, Eq)]
pub struct Profile {
    id: ProfileId,
    account: AccountId,
    date: UpdateTime,
    name: DisplayName,
    summary: Summary,
    icon: Icon,
    banner: Banner,
}

/// The parts of a `Profile`, open to change.
#[derive(Debug, Clone, Hash, PartialEq, Eq)]
pub struct DestructProfile {
    pub id: ProfileId,
    pub account: AccountId,
    pub date: UpdateTime,
    pub name: DisplayName,
    pub summary: Summary,
    pub icon: Icon,
    pub banner: Banner,
}

impl View for Profile {
    type V = ProfileView;

    closed spec fn view(&self) -> ProfileView {
        ProfileView {
            id: self.id@,
            account: self.account@,
            created_at: self.date@.0,
            updated_at: self.date@.1,
            name: self.name@,
            summary: self.summary@,
            icon: self.icon@,
            banner: self.banner@,
        }
    }
}

impl View for DestructProfile {
    type V = ProfileView;

    open spec fn view(&self) -> ProfileView {
        ProfileView {
            id: self.id@,
            account: self.account@,
            created_at: self.date@.0,
            updated_at: self.date@.1,
            name: self.name@,
            summary: self.summary@,
            icon: self.icon@,
            banner: self.banner@,
        }
    }
}

impl Profile {
    pub fn new(
        id: u128,
        account: i64,
        created_at: Timestamp,
        updated_at: Timestamp,
        name: String,
        summary: String,
        icon: String,
        banner: String,
    ) -> (r: Profile)
        ensures
            r@ == (ProfileView {
                id,
                account,
                created_at: created_at@,
                updated_at: updated_at@,
                name: name@,
                summary: summary@,
                icon: icon@,
                banner: banner@,
            }),
    {
        Profile {
            id: ProfileId::new(id),
            account: AccountId::new(account),
            date: UpdateTime::new(created_at, updated_at),
            name: DisplayName::new(name),
            summary: Summary::new(summary),
            icon: Icon::new(icon),
            banner: Banner::new(banner),
        }
    }

    pub fn id(&self) -> (r: &ProfileId)
        ensures
            r@ == self@.id,
    {
        &self.id
    }

    pub fn account(&self) -> (r: &AccountId)
        ensures
            r@ == self@.account,
    {
        &self.account
    }

    pub fn date(&self) -> (r: &UpdateTime)
        ensures
            r@ == (self@.created_at, self@.updated_at),
    {
        &self.date
    }

    pub fn name(&self) -> (r: &DisplayName)
        ensures
            r@ == self@.name,
    {
        &self.name
    }

    pub fn summary(&self) -> (r: &Summary)
        ensures
            r@ == self@.summary,
    {
        &self.summary
    }

    pub fn icon(&self) -> (r: &Icon)
        ensures
            r@ == self@.icon,
    {
        &self.icon
    }

    pub fn banner(&self) -> (r: &Banner)
        ensures
            r@ == self@.banner,
    {
        &self.banner
    }

    /// The parts of this profile.
    pub closed spec fn parts(self) -> DestructProfile {
        DestructProfile {
            id: self.id,
            account: self.account,
            date: self.date,
            name: self.name,
            summary: self.summary,
            icon: self.icon,
            banner: self.banner,
        }
    }

    pub fn into_destruct(self) -> (d: DestructProfile)
        ensures
            d == self.parts(),
            d@ == self@,
    {
        DestructProfile {
            id: self.id,
            account: self.account,
            date: self.date,
            name: self.name,
            summary: self.summary,
            icon: self.icon,
            banner: self.banner,
        }
    }
}

impl DestructProfile {
    /// The profile that these parts make up.
    pub closed spec fn frozen(self) -> Profile {
        Profile {
            id: self.id,
            account: self.account,
            date: self.date,
            name: self.name,
            summary: self.summary,
            icon: self.icon,
            banner: self.banner,
        }
    }

    pub fn freeze(self) -> (r: Profile)
        ensures
            r == self.frozen(),
            r@ == self@,
    {
        Profile {
            id: self.id,
            account: self.account,
            date: self.date,
            name: self.name,
            summary: self.summary,
            icon: self.icon,
            banner: self.banner,
        }
    }
}

/// Taking a profile apart and freezing the parts unchanged gives back the
/// same profile.
pub proof fn lemma_profile_round_trip(p: Profile)
    ensures
        p.parts().frozen() == p,
{
}

/// Freezing parts and taking the profile apart gives back the same parts.
pub proof fn lemma_profile_parts_round_trip(d: DestructProfile)
    ensures
        d.frozen().parts() == d,
{
}

} // verus!
