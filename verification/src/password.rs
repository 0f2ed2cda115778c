//! Account passwords.

use vstd::prelude::*;

use crate::account::Account;

verus! {

/// An account's password: one of the account-named defaults, or a custom
/// string set by the operator.
#[derive(Debug, Clone, PartialEq)]
pub enum Password {
    Super,
    User1,
    User2,
    User3,
    Custom(String),
}

impl Password {
    /// The characters that enter the token derivation for this password.
    pub open spec fn spec_text(self) -> Seq<char> {
        match self {
            Password::Super => "super"@,
            Password::User1 => "user1"@,
            Password::User2 => "user2"@,
            Password::User3 => "user3"@,
            Password::Custom(e) => e@,
        }
    }

    /// The password text as a string slice.
    pub fn as_str(&self) -> (r: &str)
        ensures
            r@ == self.spec_text(),
    {
        match self {
            Password::Super => "super",
            Password::User1 => "user1",
            Password::User2 => "user2",
            Password::User3 => "user3",
            Password::Custom(e) => e.as_str(),
        }
    }
}

/// Relies on zeroize's Zeroize for String: a custom password's text is
/// overwritten in place before its memory is released.
impl Drop for Password {
    #[verifier::external_body]
    fn drop(&mut self)
        opens_invariants none
        no_unwind
    {
        if let Password::Custom(e) = self {
            zeroize::Zeroize::zeroize(e);
        }
    }
}

/// The default password of each account is the account's own name.
impl From<Account> for Password {
    fn from(value: Account) -> (r: Self) {
        match value {
            Account::Super => Password::Super,
            Account::User1 => Password::User1,
            Account::User2 => Password::User2,
            Account::User3 => Password::User3,
        }
    }
}

impl vstd::std_specs::convert::FromSpecImpl<Account> for Password {
    open spec fn obeys_from_spec() -> bool {
        true
    }

    open spec fn from_spec(value: Account) -> Self {
        match value {
            Account::Super => Password::Super,
            Account::User1 => Password::User1,
            Account::User2 => Password::User2,
            Account::User3 => Password::User3,
        }
    }
}

} // verus!
