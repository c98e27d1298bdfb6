use vstd::prelude::*;

use super::account::AccountId;

verus! {

/// An account that may be followed: one of this instance, or one elsewhere,
/// known by its address.
#[derive(Debug, Clone, Hash, PartialEq, Eq)]
pub enum AccountTypes {
    Local(AccountId),
    Federate(String),
}

/// The accounts that an account follows.
#[derive(Debug, Clone, Hash, PartialEq, Eq)]
pub struct Follow(Vec<AccountTypes>);

impl View for Follow {
    type V = Seq<AccountTypes>;

    closed spec fn view(&self) -> Seq<AccountTypes> {
        self.0@
    }
}

impl Follow {
    /// Follows nobody.
    pub fn new() -> (r: Follow)
        ensures
            r@ == Seq::<AccountTypes>::empty(),
    {
        Follow(Vec::new())
    }
}

impl AsRef<[AccountTypes]> for Follow {
    fn as_ref(&self) -> (r: &[AccountTypes])
        ensures
            r@ == self@,
    {
        self.0.as_slice()
    }
}

} // verus!
