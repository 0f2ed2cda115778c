//! Hashing and parameter encryption.
//!
//! The token derivation hashes a string with SHA-256 and reads the digest
//! back from its hexadecimal writing; secured parameters are padded with
//! PKCS#7, encrypted block by block with AES-256 in ECB mode, and written in
//! base64. The outside primitives stand behind trusted wrappers; the
//! padding, the block walk and the assembly around them are verified.

use aes::cipher::{BlockCipherEncrypt, KeyInit};
use vstd::prelude::*;

verus! {

/// True when `c` is an ASCII hexadecimal digit.
pub open spec fn spec_is_hex_char(c: char) -> bool {
    (48 <= c as u32 && c as u32 <= 57) || (97 <= c as u32 && c as u32 <= 102) || (65 <= c as u32
        && c as u32 <= 70)
}

/// The value of the hexadecimal digit `c`.
pub open spec fn spec_hex_val(c: char) -> nat
    recommends
        spec_is_hex_char(c),
{
    if 48 <= c as u32 && c as u32 <= 57 {
        (c as u32 - 48) as nat
    } else if 97 <= c as u32 && c as u32 <= 102 {
        (c as u32 - 87) as nat
    } else if 65 <= c as u32 && c as u32 <= 70 {
        (c as u32 - 55) as nat
    } else {
        0
    }
}

/// True when every character of `s` is a hexadecimal digit.
pub open spec fn spec_is_hex_seq(s: Seq<char>) -> bool {
    forall|i: int| 0 <= i < s.len() ==> spec_is_hex_char(#[trigger] s[i])
}

/// The bytes written by a run of hexadecimal digit pairs.
pub open spec fn spec_hex_decode(s: Seq<char>) -> Seq<u8>
    recommends
        s.len() % 2 == 0,
        spec_is_hex_seq(s),
    decreases s.len(),
{
    if s.len() < 2 {
        Seq::empty()
    } else {
        seq![(spec_hex_val(s[0]) * 16 + spec_hex_val(s[1])) as u8] + spec_hex_decode(s.skip(2))
    }
}

/// A run of hexadecimal pairs decodes to one byte per pair.
pub proof fn lemma_hex_decode_len(s: Seq<char>)
    requires
        s.len() % 2 == 0,
    ensures
        spec_hex_decode(s).len() == s.len() / 2,
    decreases s.len(),
{
    if s.len() >= 2 {
        lemma_hex_decode_len(s.skip(2));
    }
}

/// Relies on hex::decode, which succeeds exactly on an even number of
/// hexadecimal digits and yields the byte each pair writes.
#[verifier::external_body]
pub(crate) fn hex_decode(s: &str) -> (r: Option<Vec<u8>>)
    ensures
        match r {
            Some(v) => s@.len() % 2 == 0 && spec_is_hex_seq(s@) && v@ == spec_hex_decode(s@),
            None => !(s@.len() % 2 == 0 && spec_is_hex_seq(s@)),
        },
{
    match hex::decode(s) {
        Ok(v) => Some(v),
        Err(_) => None,
    }
}

/// The 64-character hexadecimal writing of the SHA-256 digest of the UTF-8
/// bytes of `s`; it depends on the characters of `s` alone.
pub uninterp spec fn sha256_hex_of(s: Seq<char>) -> Seq<char>;

/// Relies on sha256::digest, which returns the SHA-256 digest of the
/// string's UTF-8 bytes written as 64 lowercase hexadecimal characters.
#[verifier::external_body]
pub(crate) fn sha256_hex(s: &str) -> (r: String)
    ensures
        r@ == sha256_hex_of(s@),
        r@.len() == 64,
        spec_is_hex_seq(r@),
{
    sha256::digest(s)
}

/// The standard base64 writing of `b`, `=`-padded; it depends on the bytes
/// alone.
pub uninterp spec fn base64_of(b: Seq<u8>) -> Seq<char>;

/// Relies on base64_light::base64_encode_bytes: base64 over the standard
/// alphabet, four characters for every started group of three bytes,
/// `=`-padded to that length.
#[verifier::external_body]
pub(crate) fn base64_encode(b: &Vec<u8>) -> (r: String)
    ensures
        r@ == base64_of(b@),
        r@.len() == 4 * ((b@.len() + 2) / 3),
{
    base64_light::base64_encode_bytes(b.as_slice())
}

/// The AES-256 encryption of one 16-byte block under a 32-byte key; it
/// depends on the key and the block alone.
pub uninterp spec fn aes256_block_of(key: Seq<u8>, block: Seq<u8>) -> Seq<u8>;

/// Relies on aes::Aes256 through cipher's KeyInit and BlockCipherEncrypt:
/// a 32-byte key builds the cipher, and encrypting one 16-byte block
/// returns 16 bytes.
#[verifier::external_body]
fn aes256_encrypt_block(key: &Vec<u8>, block: &Vec<u8>) -> (r: Vec<u8>)
    requires
        key@.len() == 32,
        block@.len() == 16,
    ensures
        r@ == aes256_block_of(key@, block@),
        r@.len() == 16,
{
    let cipher = <aes::Aes256 as KeyInit>::new_from_slice(key.as_slice()).unwrap();
    let mut b = aes::Block::try_from(block.as_slice()).unwrap();
    cipher.encrypt_block(&mut b);
    b.as_slice().to_vec()
}

/// The PKCS#7 padding length for a payload of `n` bytes.
pub open spec fn spec_pkcs7_pad_len(n: nat) -> nat {
    (16 - (n % 16)) as nat
}

/// `p` padded to a 16-byte boundary, every pad byte equal to the padding
/// length; an aligned payload gains a whole extra block.
pub open spec fn spec_pkcs7_pad(p: Seq<u8>) -> Seq<u8> {
    p + Seq::new(spec_pkcs7_pad_len(p.len()), |i: int| spec_pkcs7_pad_len(p.len()) as u8)
}

/// ECB mode: each 16-byte block of `padded` is encrypted independently and
/// the outputs are concatenated in order.
pub open spec fn spec_ecb_encrypt(key: Seq<u8>, padded: Seq<u8>) -> Seq<u8>
    recommends
        padded.len() % 16 == 0,
    decreases padded.len(),
{
    if padded.len() < 16 {
        Seq::empty()
    } else {
        aes256_block_of(key, padded.subrange(0, 16)) + spec_ecb_encrypt(key, padded.skip(16))
    }
}

/// The encrypted form of a secured parameter: pad with PKCS#7, encrypt the
/// blocks under AES-256-ECB, write the ciphertext in base64.
pub open spec fn spec_encrypted_param(key: Seq<u8>, p: Seq<u8>) -> Seq<char> {
    base64_of(spec_ecb_encrypt(key, spec_pkcs7_pad(p)))
}

/// Padding facts for every plaintext: the padding length lies in [1, 16],
/// every pad byte equals that length, the plaintext itself is kept
/// unchanged in front, and the padded whole is block-aligned — what an
/// independent PKCS#7 unpadding needs to recover `p` exactly.
pub proof fn lemma_pkcs7_padding(p: Seq<u8>)
    ensures
        1 <= spec_pkcs7_pad_len(p.len()) <= 16,
        spec_pkcs7_pad(p).len() == p.len() + spec_pkcs7_pad_len(p.len()),
        spec_pkcs7_pad(p).len() % 16 == 0,
        spec_pkcs7_pad(p).subrange(0, p.len() as int) == p,
        forall|i: int|
            p.len() <= i < spec_pkcs7_pad(p).len() ==> spec_pkcs7_pad(p)[i] == spec_pkcs7_pad_len(
                p.len(),
            ) as u8,
{
    assert(spec_pkcs7_pad(p).subrange(0, p.len() as int) =~= p);
    let n = p.len();
    assert((n + (16 - n % 16)) % 16 == 0) by (nonlinear_arith);
}

/// ECB encryption grows one output block for each appended input block.
pub proof fn lemma_ecb_snoc(key: Seq<u8>, s: Seq<u8>, b: Seq<u8>)
    requires
        s.len() % 16 == 0,
        b.len() == 16,
    ensures
        spec_ecb_encrypt(key, s + b) == spec_ecb_encrypt(key, s) + aes256_block_of(key, b),
    decreases s.len(),
{
    if s.len() == 0 {
        assert((s + b).subrange(0, 16) =~= b);
        assert((s + b).skip(16) =~= Seq::<u8>::empty());
        assert(spec_ecb_encrypt(key, s + b) == aes256_block_of(key, (s + b).subrange(0, 16))
            + spec_ecb_encrypt(key, (s + b).skip(16)));
        assert(spec_ecb_encrypt(key, (s + b).skip(16)) == Seq::<u8>::empty());
        assert(spec_ecb_encrypt(key, s) == Seq::<u8>::empty());
        assert(spec_ecb_encrypt(key, s + b) =~= spec_ecb_encrypt(key, s) + aes256_block_of(
            key,
            b,
        ));
    } else {
        assert(s.len() >= 16) by {
            assert(s.len() % 16 == 0);
        }
        assert((s + b).subrange(0, 16) =~= s.subrange(0, 16));
        assert((s + b).skip(16) =~= s.skip(16) + b);
        assert((s.len() - 16) % 16 == 0) by (nonlinear_arith)
            requires
                s.len() % 16 == 0,
                s.len() >= 16,
        ;
        lemma_ecb_snoc(key, s.skip(16), b);
        assert(spec_ecb_encrypt(key, s + b) == aes256_block_of(key, (s + b).subrange(0, 16))
            + spec_ecb_encrypt(key, (s + b).skip(16)));
        assert(spec_ecb_encrypt(key, s) == aes256_block_of(key, s.subrange(0, 16))
            + spec_ecb_encrypt(key, s.skip(16)));
        assert(spec_ecb_encrypt(key, s + b) =~= spec_ecb_encrypt(key, s) + aes256_block_of(
            key,
            b,
        ));
    }
}

/// Pad `data` with PKCS#7, encrypt each 16-byte block under `key` with
/// AES-256-ECB, and return the base64 writing of the ciphertext.
pub fn aes256_ecb_b64(key: &Vec<u8>, data: &Vec<u8>) -> (r: String)
    requires
        key@.len() == 32,
    ensures
        r@ == spec_encrypted_param(key@, data@),
{
    proof {
        lemma_pkcs7_padding(data@);
    }
    let pad: u8 = (16 - (data.len() % 16)) as u8;
    let mut buf: Vec<u8> = Vec::new();
    let mut i: usize = 0;
    while i < data.len()
        invariant
            i <= data@.len(),
            buf@ == data@.subrange(0, i as int),
        decreases data@.len() - i,
    {
        buf.push(data[i]);
        i = i + 1;
        proof {
            assert(data@.subrange(0, i as int) =~= data@.subrange(0, i - 1).push(
                data@[i - 1],
            ));
        }
    }
    proof {
        assert(data@.subrange(0, data@.len() as int) =~= data@);
    }
    let mut j: u8 = 0;
    while j < pad
        invariant
            j <= pad,
            pad == spec_pkcs7_pad_len(data@.len()),
            buf@ == data@ + Seq::new(j as nat, |k: int| pad),
        decreases pad - j,
    {
        buf.push(pad);
        j = j + 1;
        proof {
            assert(data@ + Seq::new(j as nat, |k: int| pad) =~= (data@ + Seq::new(
                (j - 1) as nat,
                |k: int| pad,
            )).push(pad));
        }
    }
    proof {
        assert(buf@ =~= spec_pkcs7_pad(data@));
    }
    let mut out: Vec<u8> = Vec::new();
    let mut pos: usize = 0;
    while pos < buf.len()
        invariant
            key@.len() == 32,
            pos <= buf@.len(),
            (buf@.len() - pos) % 16 == 0,
            buf@ == spec_pkcs7_pad(data@),
            out@ == spec_ecb_encrypt(key@, buf@.subrange(0, pos as int)),
        decreases buf@.len() - pos,
    {
        proof {
            lemma_pkcs7_padding(data@);
            assert(buf@.len() - pos >= 16) by {
                if buf@.len() - pos < 16 {
                    assert((buf@.len() - pos) % 16 == buf@.len() - pos);
                }
            }
            assert((buf@.len() - (pos + 16)) % 16 == 0) by (nonlinear_arith)
                requires
                    (buf@.len() - pos) % 16 == 0,
                    buf@.len() - pos >= 16,
            ;
        }
        let mut block: Vec<u8> = Vec::new();
        let mut t: usize = 0;
        while t < 16
            invariant
                t <= 16,
                pos + 16 <= buf@.len(),
                buf@.len() <= usize::MAX,
                block@ == buf@.subrange(pos as int, pos + t),
            decreases 16 - t,
        {
            block.push(buf[pos + t]);
            t = t + 1;
            proof {
                assert(buf@.subrange(pos as int, pos + t) =~= buf@.subrange(
                    pos as int,
                    pos + t - 1,
                ).push(buf@[pos + t - 1]));
            }
        }
        let mut enc = aes256_encrypt_block(key, &block);
        out.append(&mut enc);
        proof {
            assert((buf@.subrange(0, pos as int)).len() % 16 == 0) by (nonlinear_arith)
                requires
                    (buf@.len() - pos) % 16 == 0,
                    buf@.len() % 16 == 0,
                    0 <= pos <= buf@.len(),
                    (buf@.subrange(0, pos as int)).len() == pos,
            ;
            lemma_ecb_snoc(key@, buf@.subrange(0, pos as int), block@);
            assert(buf@.subrange(0, pos + 16) =~= buf@.subrange(0, pos as int) + block@);
        }
        pos = pos + 16;
    }
    proof {
        assert(buf@.subrange(0, buf@.len() as int) =~= buf@);
    }
    base64_encode(&out)
}

} // verus!
