//! The device's fixed accounts.

use vstd::prelude::*;

pub use crate::password::Password;

verus! {

/// The four accounts a device knows; no others can be created.
#[derive(Debug, Clone, Copy, PartialEq, Eq, Structural)]
pub enum Account {
    Super,
    User1,
    User2,
    User3,
}

impl Account {
    /// The account name as the wire protocol spells it.
    pub open spec fn spec_name(self) -> Seq<char> {
        match self {
            Account::Super => "super"@,
            Account::User1 => "user1"@,
            Account::User2 => "user2"@,
            Account::User3 => "user3"@,
        }
    }

    /// The account name as a string slice.
    pub fn as_str(&self) -> (r: &'static str)
        ensures
            r@ == self.spec_name(),
    {
        match self {
            Account::Super => "super",
            Account::User1 => "user1",
            Account::User2 => "user2",
            Account::User3 => "user3",
        }
    }
}

} // verus!
