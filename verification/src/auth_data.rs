//! Authentication blocks for secured commands.
//!
//! A block is derived fresh for every secured invocation: the command name,
//! the password, the session salt and the current timestamp are hashed, the
//! digest's first base64 characters become the token, and the raw digest
//! bytes double as the AES-256 key for encrypted parameters.

use vstd::prelude::*;
use vstd::string::{StrSliceExecFns, StringExecFns};

use crate::account::Account;
use crate::command::Command;
use crate::crypto::{
    aes256_ecb_b64, base64_encode, base64_of, hex_decode, lemma_hex_decode_len, sha256_hex,
    sha256_hex_of, spec_encrypted_param, spec_hex_decode,
};
use crate::error::Error;
use crate::json::{spec_dec_digits, u64_to_dec};

verus! {

/// The characters hashed for one invocation: command name, password, salt
/// and the decimal timestamp, concatenated without separators.
pub open spec fn spec_token_input(
    cmd: Seq<char>,
    password: Seq<char>,
    salt: Seq<char>,
    ts: u64,
) -> Seq<char> {
    cmd + password + salt + spec_dec_digits(ts as nat)
}

/// The 32 raw digest bytes derived for one invocation; they double as the
/// AES-256 key.
pub open spec fn spec_auth_key(
    cmd: Seq<char>,
    password: Seq<char>,
    salt: Seq<char>,
    ts: u64,
) -> Seq<u8> {
    spec_hex_decode(sha256_hex_of(spec_token_input(cmd, password, salt, ts)))
}

/// The token: the first eight characters of the base64 writing of the raw
/// digest bytes.
pub open spec fn spec_auth_token(
    cmd: Seq<char>,
    password: Seq<char>,
    salt: Seq<char>,
    ts: u64,
) -> Seq<char> {
    base64_of(spec_auth_key(cmd, password, salt, ts)).subrange(0, 8)
}

/// Data for protected endpoints, unique per command invocation.
///
/// The key bytes are private and never enter the serialized envelope.
#[derive(Debug, PartialEq)]
pub struct AuthData {
    ts: u64,
    token: String,
    username: Account,
    aes_key: Vec<u8>,
}

impl AuthData {
    /// Every block carries a full-length AES-256 key.
    #[verifier::type_invariant]
    pub closed spec fn wf(self) -> bool {
        self.aes_key@.len() == 32
    }

    /// The seconds since the epoch when the block was derived.
    pub closed spec fn spec_ts(self) -> u64 {
        self.ts
    }

    /// The token this block carries.
    pub closed spec fn spec_token(self) -> Seq<char> {
        self.token@
    }

    /// The account this block names.
    pub closed spec fn spec_username(self) -> Account {
        self.username
    }

    /// The raw digest bytes this block holds as its encryption key.
    pub closed spec fn spec_key(self) -> Seq<u8> {
        self.aes_key@
    }

    /// True when this block is exactly the one derived from the given
    /// inputs.
    pub open spec fn derived_from(
        self,
        cmd: Seq<char>,
        password: Seq<char>,
        salt: Seq<char>,
        ts: u64,
    ) -> bool {
        &&& self.spec_ts() == ts
        &&& self.spec_token() == spec_auth_token(cmd, password, salt, ts)
        &&& self.spec_key() == spec_auth_key(cmd, password, salt, ts)
    }

    /// Derive the block for command `C` from the given inputs at timestamp
    /// `ts`.
    pub fn new_at<C: Command>(username: Account, password: &str, salt: &str, ts: u64) -> (r:
        Result<Self, Error>)
        ensures
            r matches Ok(a) && a.derived_from(C::spec_cmd_name(), password@, salt@, ts)
                && a.spec_username() == username,
    {
        let mut input = String::new();
        input.append(C::cmd_name());
        input.append(password);
        input.append(salt);
        let ts_text = u64_to_dec(ts);
        input.append(ts_text.as_str());
        let hex_digest = sha256_hex(input.as_str());
        let raw = match hex_decode(hex_digest.as_str()) {
            Some(v) => v,
            None => {
                return Err(Error::Hex);
            },
        };
        proof {
            lemma_hex_decode_len(hex_digest@);
        }
        let token_full = base64_encode(&raw);
        let token_prefix = token_full.as_str().substring_char(0, 8);
        Ok(
            AuthData {
                ts,
                token: token_prefix.to_owned(),
                username,
                aes_key: raw,
            },
        )
    }

    /// Derive a fresh block for command `C` at the current time.
    pub fn new<C: Command>(username: Account, password: &str, salt: &str) -> (r: Result<
        Self,
        Error,
    >)
        ensures
            r matches Ok(a) && a.derived_from(C::spec_cmd_name(), password@, salt@, a.spec_ts())
                && a.spec_username() == username,
    {
        let ts = now_unix_secs();
        Self::new_at::<C>(username, password, salt, ts)
    }

    /// The timestamp, as the serializer writes it.
    pub fn ts(&self) -> (r: u64)
        ensures
            r == self.spec_ts(),
    {
        self.ts
    }

    /// The token, as the serializer writes it.
    pub fn token(&self) -> (r: &str)
        ensures
            r@ == self.spec_token(),
    {
        self.token.as_str()
    }

    /// The account, as the serializer writes it.
    pub fn username(&self) -> (r: Account)
        ensures
            r == self.spec_username(),
    {
        self.username
    }

    /// Encrypt a parameter with this block's key: PKCS#7 padding, AES-256 in
    /// ECB mode, base64.
    pub fn encrypt(&self, data: &Vec<u8>) -> (r: Result<String, Error>)
        ensures
            r matches Ok(s) && s@ == spec_encrypted_param(self.spec_key(), data@),
    {
        proof {
            use_type_invariant(&*self);
        }
        if self.aes_key.len() != 32 {
            return Err(Error::EncryptionFailed);
        }
        Ok(aes256_ecb_b64(&self.aes_key, data))
    }
}

/// Relies on zeroize's Zeroize for String and for byte vectors: the token
/// and the key bytes are overwritten in place before their memory is
/// released.
impl Drop for AuthData {
    #[verifier::external_body]
    fn drop(&mut self)
        opens_invariants none
        no_unwind
    {
        zeroize::Zeroize::zeroize(&mut self.token);
        zeroize::Zeroize::zeroize(&mut self.aes_key);
    }
}

/// Token determinism: two blocks derived from the same command name,
/// password, salt and timestamp carry the same token, the same key and the
/// same timestamp.
pub proof fn lemma_token_deterministic(
    a: AuthData,
    b: AuthData,
    cmd: Seq<char>,
    password: Seq<char>,
    salt: Seq<char>,
    ts: u64,
)
    requires
        a.derived_from(cmd, password, salt, ts),
        b.derived_from(cmd, password, salt, ts),
    ensures
        a.spec_token() == b.spec_token(),
        a.spec_key() == b.spec_key(),
        a.spec_ts() == b.spec_ts(),
{
}

/// Relies on std::time::SystemTime::now and duration_since: the seconds
/// since the Unix epoch, or zero if the clock stands before it. Nothing
/// further is promised of the clock.
#[verifier::external_body]
fn now_unix_secs() -> u64 {
    match std::time::SystemTime::now().duration_since(std::time::UNIX_EPOCH) {
        Ok(d) => d.as_secs(),
        Err(_) => 0,
    }
}

} // verus!
