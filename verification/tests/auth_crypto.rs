//! Tests of token derivation and parameter encryption, checked against the
//! outside crates used directly.

use aes::cipher::{BlockCipherDecrypt, KeyInit};
use matroskin::account::Account;
use matroskin::auth_data::AuthData;
use matroskin::command::set_miner_fastboot::SetMinerFastboot;
use matroskin::command::set_miner_pools::{SetMinerPools, SetMinerPoolsParamItem};
use matroskin::command::Command;
use matroskin::password::Password;

/// The raw digest bytes the token derivation is defined over, computed
/// independently of the library.
fn reference_key(cmd: &str, password: &str, salt: &str, ts: u64) -> Vec<u8> {
    let input = format!("{}{}{}{}", cmd, password, salt, ts);
    hex::decode(sha256::digest(input)).unwrap()
}

/// The token the derivation is defined to produce, computed independently.
fn reference_token(cmd: &str, password: &str, salt: &str, ts: u64) -> String {
    let raw = reference_key(cmd, password, salt, ts);
    base64_light::base64_encode_bytes(&raw)
        .chars()
        .take(8)
        .collect()
}

#[test]
fn token_matches_reference_derivation() {
    let ts: u64 = 1_700_000_123;
    let auth =
        AuthData::new_at::<SetMinerFastboot>(Account::Super, "super", "abc123", ts).unwrap();
    assert_eq!(auth.ts(), ts);
    assert_eq!(auth.username(), Account::Super);
    assert_eq!(
        auth.token(),
        reference_token("set.miner.fastboot", "super", "abc123", ts)
    );
    assert_eq!(auth.token().len(), 8);
}

#[test]
fn token_is_deterministic() {
    let ts: u64 = 1_699_999_999;
    let a = AuthData::new_at::<SetMinerPools>(Account::User2, "pw", "salt", ts).unwrap();
    let b = AuthData::new_at::<SetMinerPools>(Account::User2, "pw", "salt", ts).unwrap();
    assert_eq!(a.token(), b.token());
    assert_eq!(a, b);
}

#[test]
fn token_changes_with_each_input() {
    let ts: u64 = 1_650_000_000;
    let base = AuthData::new_at::<SetMinerFastboot>(Account::Super, "pw", "salt", ts).unwrap();
    let other_cmd = AuthData::new_at::<SetMinerPools>(Account::Super, "pw", "salt", ts).unwrap();
    let other_pw = AuthData::new_at::<SetMinerFastboot>(Account::Super, "pw2", "salt", ts).unwrap();
    let other_salt =
        AuthData::new_at::<SetMinerFastboot>(Account::Super, "pw", "salt2", ts).unwrap();
    let other_ts = AuthData::new_at::<SetMinerFastboot>(Account::Super, "pw", "salt", ts + 1).unwrap();
    assert_ne!(base.token(), other_cmd.token());
    assert_ne!(base.token(), other_pw.token());
    assert_ne!(base.token(), other_salt.token());
    assert_ne!(base.token(), other_ts.token());
}

/// Decrypt with the aes crate directly and strip PKCS#7, checking the
/// padding on the way.
fn reference_decrypt(key: &[u8], ciphertext_b64: &str) -> Vec<u8> {
    let ct = base64_light::base64_decode(ciphertext_b64);
    assert!(!ct.is_empty());
    assert_eq!(ct.len() % 16, 0);
    let cipher = aes::Aes256::new_from_slice(key).unwrap();
    let mut pt: Vec<u8> = Vec::new();
    for chunk in ct.chunks(16) {
        let mut block = aes::Block::try_from(chunk).unwrap();
        cipher.decrypt_block(&mut block);
        pt.extend_from_slice(block.as_slice());
    }
    let pad = *pt.last().unwrap() as usize;
    assert!(1 <= pad && pad <= 16, "padding length {} out of range", pad);
    assert!(
        pt[pt.len() - pad..].iter().all(|&b| b as usize == pad),
        "padding bytes do not all equal the padding length"
    );
    pt.truncate(pt.len() - pad);
    pt
}

#[test]
fn encrypt_round_trips_through_reference_aes() {
    let ts: u64 = 1_700_000_000;
    let auth = AuthData::new_at::<SetMinerPools>(Account::Super, "super", "s4lt", ts).unwrap();
    let key = reference_key("set.miner.pools", "super", "s4lt", ts);
    let cases: [&[u8]; 6] = [
        b"",
        b"x",
        b"fifteen bytes!!",
        b"exactly 16 byte_",
        b"thirty-one bytes of plaintext!!",
        b"[{\"pool\":\"stratum+tcp://1.1.1.1:3333\",\"worker\":\"w\",\"passwd\":\"p\"}]",
    ];
    for plaintext in cases {
        let ct = auth.encrypt(&plaintext.to_vec()).unwrap();
        let recovered = reference_decrypt(&key, &ct);
        assert_eq!(recovered, plaintext, "round trip failed for {:?}", plaintext);
    }
}

#[test]
fn encrypt_pads_aligned_input_with_full_block() {
    let ts: u64 = 1_700_000_000;
    let auth = AuthData::new_at::<SetMinerPools>(Account::Super, "super", "s4lt", ts).unwrap();
    let plaintext = b"exactly 16 byte_".to_vec();
    let ct = base64_light::base64_decode(&auth.encrypt(&plaintext).unwrap());
    assert_eq!(ct.len(), 32);
    let empty = Vec::new();
    let ct_empty = base64_light::base64_decode(&auth.encrypt(&empty).unwrap());
    assert_eq!(ct_empty.len(), 16);
}

#[test]
fn identical_blocks_encrypt_identically() {
    // The known ECB weakness the wire protocol accepts: equal plaintext
    // blocks give equal ciphertext blocks.
    let ts: u64 = 1_700_000_000;
    let auth = AuthData::new_at::<SetMinerPools>(Account::User3, "user3", "salty", ts).unwrap();
    let plaintext = b"ABCDEFGHIJKLMNOPABCDEFGHIJKLMNOP".to_vec();
    let ct = base64_light::base64_decode(&auth.encrypt(&plaintext).unwrap());
    assert_eq!(ct.len(), 48);
    assert_eq!(ct[0..16], ct[16..32]);
}

#[test]
fn encrypted_request_carries_recoverable_param() {
    // End to end: a secured, encrypted command serializes to an envelope
    // whose `param` field decrypts (with an independent AES-256-ECB and
    // PKCS#7 unpadding) back to the pools JSON.
    let ts: u64 = 1_711_111_111;
    let auth = AuthData::new_at::<SetMinerPools>(Account::Super, "super", "zzz", ts).unwrap();
    let key = reference_key("set.miner.pools", "super", "zzz", ts);
    let mut pools = Vec::new();
    pools.push(SetMinerPoolsParamItem {
        pool: "stratum+tcp://1.1.1.1:3333".to_string(),
        worker: "waru.777".to_string(),
        password: "test".to_string(),
    });
    let cmd = SetMinerPools(pools);
    let s = cmd.to_request_to_string(Some(auth)).unwrap();
    let value: serde_json::Value = serde_json::from_str(&s).unwrap();
    let obj = value.as_object().unwrap();
    assert_eq!(obj["cmd"], "set.miner.pools");
    assert_eq!(obj["account"], "super");
    assert_eq!(obj["ts"], ts);
    let param = obj["param"].as_str().unwrap();
    let recovered = reference_decrypt(&key, param);
    assert_eq!(
        String::from_utf8(recovered).unwrap(),
        "[{\"pool\":\"stratum+tcp://1.1.1.1:3333\",\"worker\":\"waru.777\",\"passwd\":\"test\"}]"
    );
}

#[test]
fn password_defaults_follow_accounts() {
    assert_eq!(Password::from(Account::Super).as_str(), "super");
    assert_eq!(Password::from(Account::User1).as_str(), "user1");
    assert_eq!(Password::from(Account::User2).as_str(), "user2");
    assert_eq!(Password::from(Account::User3).as_str(), "user3");
    assert_eq!(Password::Custom("secret".to_string()).as_str(), "secret");
    assert_eq!(Account::Super.as_str(), "super");
}
