use vstd::prelude::*;
use vstd::string::StringExecFns;

use super::update_time::{Timestamp, UpdateTime};

verus! {

/// The smallest identifier that `AccountId::default` draws.
pub const ACCOUNT_ID_MIN: i64 = 1_000_000_000_000_000;

/// The largest identifier that `AccountId::default` draws.
pub const ACCOUNT_ID_MAX: i64 = 9_999_999_999_999_999;

/// The character that writes the decimal digit `d`.
pub open spec fn digit_char(d: nat) -> char {
    seq!['0', '1', '2', '3', '4', '5', '6', '7', '8', '9'][d as int]
}

/// `n` written in decimal, without leading zeros.
pub open spec fn decimal(n: nat) -> Seq<char>
    decreases n,
{
    if n < 10 {
        seq![digit_char(n)]
    } else {
        decimal(n / 10).push(digit_char(n % 10))
    }
}

/// `n` written in decimal, with a leading `-` when it is negative.
pub open spec fn signed_decimal(n: int) -> Seq<char> {
    if n < 0 {
        seq!['-'] + decimal((-n) as nat)
    } else {
        decimal(n as nat)
    }
}

/// How an account identifier is written in messages: `AccountId(42)`.
pub open spec fn account_id_text(id: i64) -> Seq<char> {
    "AccountId("@ + signed_decimal(id as int) + ")"@
}

/// Relies on `rand::Rng::gen_range` over `rand::thread_rng()`: the value is
/// drawn from `low..=high` and never leaves it. It panics on an empty range,
/// which `requires` rules out.
#[verifier::external_body]
fn draw_between(low: i64, high: i64) -> (r: i64)
    requires
        low <= high,
    ensures
        low <= r <= high,
{
    rand::Rng::gen_range(&mut rand::thread_rng(), low..=high)
}

/// Relies on `ToString::to_string` of `i64`, which writes the integer in
/// decimal through its `Display`.
#[verifier::external_body]
fn decimal_text(n: i64) -> (r: String)
    ensures
        r@ == signed_decimal(n as int),
{
    n.to_string()
}

/// The identifier of an account.
#[derive(Debug, Clone, Copy, Hash, PartialEq, Eq, Structural)]
pub struct AccountId(i64);

impl View for AccountId {
    type V = i64;

    closed spec fn view(&self) -> i64 {
        self.0
    }
}

impl AccountId {
    pub fn new(id: i64) -> (r: AccountId)
        ensures
            r@ == id,
    {
        AccountId(id)
    }

    /// Two identifiers are equal exactly when their values are.
    pub proof fn lemma_value_equal(a: AccountId, b: AccountId)
        ensures
            a == b <==> a@ == b@,
    {
    }

    /// The identifier as it is written in messages, `AccountId(42)`.
    pub fn debug_text(&self) -> (r: String)
        ensures
            r@ == account_id_text(self@),
    {
        let mut text = String::from_str("AccountId(");
        let digits = decimal_text(self.0);
        text.append(digits.as_str());
        text.append(")");
        text
    }
}

impl Default for AccountId {
    /// A fresh identifier, drawn at random from
    /// `ACCOUNT_ID_MIN..=ACCOUNT_ID_MAX`.
    fn default() -> (r: AccountId)
        ensures
            ACCOUNT_ID_MIN <= r@ <= ACCOUNT_ID_MAX,
    {
        AccountId(draw_between(ACCOUNT_ID_MIN, ACCOUNT_ID_MAX))
    }
}

impl AsRef<i64> for AccountId {
    fn as_ref(&self) -> (r: &i64)
        ensures
            *r == self@,
    {
        &self.0
    }
}

impl From<AccountId> for i64 {
    fn from(id: AccountId) -> (r: i64) {
        id.0
    }
}

impl vstd::std_specs::convert::FromSpecImpl<AccountId> for i64 {
    open spec fn obeys_from_spec() -> bool {
        true
    }

    open spec fn from_spec(id: AccountId) -> i64 {
        id@
    }
}

/// The name of an account. Nothing about its characters is checked here.
#[derive(Debug, Clone, Hash, PartialEq, Eq)]
pub struct AccountName(String);

impl View for AccountName {
    type V = Seq<char>;

    closed spec fn view(&self) -> Seq<char> {
        self.0@
    }
}

impl AccountName {
    pub fn new(name: String) -> (r: AccountName)
        ensures
            r@ == name@,
    {
        AccountName(name)
    }
}

impl AsRef<str> for AccountName {
    fn as_ref(&self) -> (r: &str)
        ensures
            r@ == self@,
    {
        self.0.as_str()
    }
}

impl From<AccountName> for String {
    fn from(name: AccountName) -> (r: String)
        ensures
            r@ == name@,
    {
        name.0
    }
}

impl vstd::std_specs::convert::FromSpecImpl<AccountName> for String {
    open spec fn obeys_from_spec() -> bool {
        true
    }

    closed spec fn from_spec(name: AccountName) -> String {
        name.0
    }
}

/// Whether an account is run by a program rather than a person.
#[derive(Debug, Clone, Copy, Hash, PartialEq, Eq, Structural)]
pub struct IsBot(bool);

impl View for IsBot {
    type V = bool;

    closed spec fn view(&self) -> bool {
        self.0
    }
}

impl IsBot {
    pub fn new(flag: bool) -> (r: IsBot)
        ensures
            r@ == flag,
    {
        IsBot(flag)
    }

    /// Two flags are equal exactly when their values are.
    pub proof fn lemma_value_equal(a: IsBot, b: IsBot)
        ensures
            a == b <==> a@ == b@,
    {
    }
}

impl AsRef<bool> for IsBot {
    fn as_ref(&self) -> (r: &bool)
        ensures
            *r == self@,
    {
        &self.0
    }
}

impl From<IsBot> for bool {
    fn from(flag: IsBot) -> (r: bool) {
        flag.0
    }
}

impl vstd::std_specs::convert::FromSpecImpl<IsBot> for bool {
    open spec fn obeys_from_spec() -> bool {
        true
    }

    open spec fn from_spec(flag: IsBot) -> bool {
        flag@
    }
}

/// What an account holds, as contracts see it.
pub struct AccountView {
    pub id: i64,
    pub name: Seq<char>,
    pub bot: bool,
    pub created_at: i128,
    pub updated_at: i128,
}

/// An account. It has no setters: to change one, take it apart with
/// `into_destruct`, replace parts, and `freeze` a new account.
#[derive(Debug, Clone, Hash, PartialEq, Eq)]
pub struct Account {
    id: AccountId,
    name: AccountName,
    bot: IsBot,
    date: UpdateTime,
}

/// The parts of an `Account`, open to change.
#[derive(Debug, Clone, Hash, PartialEq, Eq)]
pub struct DestructAccount {
    pub id: AccountId,
    pub name: AccountName,
    pub bot: IsBot,
    pub date: UpdateTime,
}

impl View for Account {
    type V = AccountView;

    closed spec fn view(&self) -> AccountView {
        AccountView {
            id: self.id@,
            name: self.name@,
            bot: self.bot@,
            created_at: self.date@.0,
            updated_at: self.date@.1,
        }
    }
}

impl View for DestructAccount {
    type V = AccountView;

    open spec fn view(&self) -> AccountView {
        AccountView {
            id: self.id@,
            name: self.name@,
            bot: self.bot@,
            created_at: self.date@.0,
            updated_at: self.date@.1,
        }
    }
}

impl Account {
    pub fn new(
        id: i64,
        name: String,
        bot: bool,
        created_at: Timestamp,
        updated_at: Timestamp,
    ) -> (r: Account)
        ensures
            r@ == (AccountView {
                id,
                name: name@,
                bot,
                created_at: created_at@,
                updated_at: updated_at@,
            }),
    {
        Account {
            id: AccountId::new(id),
            name: AccountName::new(name),
            bot: IsBot::new(bot),
            date: UpdateTime::new(created_at, updated_at),
        }
    }

    pub fn id(&self) -> (r: &AccountId)
        ensures
            r@ == self@.id,
    {
        &self.id
    }

    pub fn name(&self) -> (r: &AccountName)
        ensures
            r@ == self@.name,
    {
        &self.name
    }

    pub fn bot(&self) -> (r: &IsBot)
        ensures
            r@ == self@.bot,
    {
        &self.bot
    }

    pub fn date(&self) -> (r: &UpdateTime)
        ensures
            r@ == (self@.created_at, self@.updated_at),
    {
        &self.date
    }

    /// The parts of this account.
    pub closed spec fn parts(self) -> DestructAccount {
        DestructAccount { id: self.id, name: self.name, bot: self.bot, date: self.date }
    }

    pub fn into_destruct(self) -> (d: DestructAccount)
        ensures
            d == self.parts(),
            d@ == self@,
    {
        DestructAccount { id: self.id, name: self.name, bot: self.bot, date: self.date }
    }
}

impl DestructAccount {
    /// The account that these parts make up.
    pub closed spec fn frozen(self) -> Account {
        Account { id: self.id, name: self.name, bot: self.bot, date: self.date }
    }

    pub fn freeze(self) -> (r: Account)
        ensures
            r == self.frozen(),
            r@ == self@,
    {
        Account { id: self.id, name: self.name, bot: self.bot, date: self.date }
    }
}

/// Taking an account apart and freezing the parts unchanged gives back the
/// same account.
pub proof fn lemma_account_round_trip(a: Account)
    ensures
        a.parts().frozen() == a,
{
}

/// Freezing parts and taking the account apart gives back the same parts.
pub proof fn lemma_account_parts_round_trip(d: DestructAccount)
    ensures
        d.frozen().parts() == d,
{
}

} // verus!
