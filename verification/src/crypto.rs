//! The primitives that the engine rests on: the memory-hard key derivation,
//! the authenticated cipher, the digest that names a user's file, and the
//! random source for salts and nonces.

use vstd::prelude::*;
use aes_gcm_siv::aead::generic_array::GenericArray;
use aes_gcm_siv::aead::{Aead, KeyInit, OsRng};
use aes_gcm_siv::{AeadCore, Aes128GcmSiv};
use scrypt::password_hash::SaltString;
use scrypt::{scrypt, Params};
use sha2::{Digest, Sha256};

verus! {

/// Length of a salt in bytes.
pub const SALT_LEN: usize = 22;

/// Length of a nonce in bytes.
pub const NONCE_LEN: usize = 12;

/// Length of the authentication tag that closes every ciphertext.
pub const TAG_LEN: usize = 16;

/// The longest plaintext that the cipher accepts.
pub const MAX_PLAINTEXT_LEN: u64 = 0x10_0000_0000;

/// Cost exponent of the key derivation.
pub const KDF_LOG_N: u8 = 14;

/// Block size of the key derivation.
pub const KDF_R: u32 = 8;

/// Parallelism of the key derivation.
pub const KDF_P: u32 = 1;

/// The 16 bytes that scrypt derives from a password and a salt under the
/// cost exponent `log_n`, the block size `r` and the parallelism `p`.
pub uninterp spec fn scrypt_key(password: Seq<u8>, salt: Seq<u8>, log_n: u8, r: u32, p: u32) -> Seq<u8>;

/// The ciphertext, tag included, that AES-128-GCM-SIV produces for a
/// plaintext without associated data, or `None` where it refuses the
/// plaintext.
pub uninterp spec fn aes_gcm_siv_seal(key: Seq<u8>, nonce: Seq<u8>, plaintext: Seq<u8>) -> Option<Seq<u8>>;

/// The plaintext that AES-128-GCM-SIV recovers from a ciphertext without
/// associated data, or `None` where the ciphertext does not authenticate.
pub uninterp spec fn aes_gcm_siv_open(key: Seq<u8>, nonce: Seq<u8>, ciphertext: Seq<u8>) -> Option<Seq<u8>>;

/// The SHA-256 digest of `data`.
pub uninterp spec fn sha256(data: Seq<u8>) -> Seq<u8>;

/// The key that belongs to a master password and a salt: scrypt at the
/// engine's fixed cost.
pub open spec fn derived_key(password: Seq<u8>, salt: Seq<u8>) -> Seq<u8> {
    scrypt_key(password, salt, KDF_LOG_N, KDF_R, KDF_P)
}

/// Calls `scrypt::scrypt` with parameters built by `scrypt::Params::new` for
/// an output of 16 bytes. Within the bounds required here the parameters are
/// accepted and the derivation succeeds; the key is a function of the
/// password, the salt and the three cost parameters.
#[verifier::external_body]
pub(crate) fn scrypt_derive(password: &[u8], salt: &[u8], log_n: u8, r: u32, p: u32) -> (key: [u8; 16])
    requires
        log_n <= 15,
        1 <= r <= 255,
        1 <= p <= 255,
    ensures
        key@ == scrypt_key(password@, salt@, log_n, r, p),
{
    let mut key = [0u8; 16];
    let params = Params::new(log_n, r, p, 16).unwrap();
    scrypt(password, salt, &params, &mut key).unwrap();
    key
}

/// Calls `Aead::encrypt` of `Aes128GcmSiv` with no associated data. The
/// cipher refuses only a plaintext longer than 2^36 bytes; the ciphertext is
/// the plaintext's length plus the 16 bytes of the tag, and opening it with
/// the same key and nonce gives the plaintext back.
#[verifier::external_body]
pub(crate) fn seal(key: &[u8; 16], nonce: &[u8; 12], plaintext: &[u8]) -> (r: Option<Vec<u8>>)
    ensures
        r is Some <==> plaintext@.len() <= MAX_PLAINTEXT_LEN,
        r matches Some(c) ==> aes_gcm_siv_seal(key@, nonce@, plaintext@) == Some(c@),
        r matches Some(c) ==> c@.len() == plaintext@.len() + TAG_LEN,
        r matches Some(c) ==> aes_gcm_siv_open(key@, nonce@, c@) == Some(plaintext@),
        r is None ==> aes_gcm_siv_seal(key@, nonce@, plaintext@) is None,
{
    let cipher = Aes128GcmSiv::new(GenericArray::from_slice(key));
    cipher.encrypt(GenericArray::from_slice(nonce), plaintext).ok()
}

/// Calls `Aead::decrypt` of `Aes128GcmSiv` with no associated data. It
/// returns the plaintext where the tag authenticates the ciphertext under
/// the key and nonce, and nothing otherwise.
#[verifier::external_body]
pub(crate) fn open(key: &[u8; 16], nonce: &[u8; 12], ciphertext: &[u8]) -> (r: Option<Vec<u8>>)
    ensures
        r matches Some(p) ==> aes_gcm_siv_open(key@, nonce@, ciphertext@) == Some(p@),
        r is None ==> aes_gcm_siv_open(key@, nonce@, ciphertext@) is None,
{
    let cipher = Aes128GcmSiv::new(GenericArray::from_slice(key));
    cipher.decrypt(GenericArray::from_slice(nonce), ciphertext).ok()
}

/// Calls `SaltString::generate` on the operating system's random source:
/// 16 random bytes in unpadded base 64, which are 22 characters.
#[verifier::external_body]
pub(crate) fn random_salt() -> (salt: Vec<u8>)
    ensures
        salt@.len() == SALT_LEN,
{
    SaltString::generate(&mut OsRng).as_str().as_bytes().to_vec()
}

/// Calls `AeadCore::generate_nonce` of `Aes128GcmSiv` on the operating
/// system's random source. Nothing is known of the 12 bytes.
#[verifier::external_body]
pub(crate) fn random_nonce() -> (nonce: [u8; 12])
{
    Aes128GcmSiv::generate_nonce(&mut OsRng).into()
}

/// Calls `Sha256::digest` of the `sha2` crate.
#[verifier::external_body]
pub(crate) fn sha256_digest(data: &[u8]) -> (digest: [u8; 32])
    ensures
        digest@ == sha256(data@),
{
    Sha256::digest(data).into()
}

/// A key derived from a master password, with the salt it was derived under.
#[derive(Debug, Clone, PartialEq)]
pub struct DerivedKey {
    pub key: [u8; 16],
    pub salt: Vec<u8>,
}

impl DerivedKey {
    /// Whether the key is the one that belongs to `password` and the salt.
    pub open spec fn belongs_to(&self, password: Seq<char>) -> bool {
        self.key@ == derived_key(vstd::utf8::encode_utf8(password), self.salt@)
    }

    /// Puts a key and its salt together.
    pub fn new(key: [u8; 16], salt: Vec<u8>) -> (r: Self)
        ensures
            r.key == key,
            r.salt == salt,
    {
        DerivedKey { key, salt }
    }

    /// Derives the key of `data` under `salt`, or under a fresh random salt
    /// of 22 bytes where none is given.
    pub fn derive_key(data: &str, salt: Option<Vec<u8>>) -> (r: Self)
        ensures
            r.belongs_to(data@),
            salt matches Some(s) ==> r.salt@ == s@,
            salt is None ==> r.salt@.len() == SALT_LEN,
    {
        let salt: Vec<u8> = match salt {
            Some(salt) => salt,
            None => random_salt(),
        };
        let key: [u8; 16] = scrypt_derive(data.as_bytes(), salt.as_slice(), KDF_LOG_N, KDF_R, KDF_P);
        DerivedKey::new(key, salt)
    }
}

/// The sixteen lowercase hexadecimal digits.
pub open spec fn hex_digits() -> Seq<char> {
    seq!['0', '1', '2', '3', '4', '5', '6', '7', '8', '9', 'a', 'b', 'c', 'd', 'e', 'f']
}

/// `bytes` in lowercase hexadecimal, two digits for each byte.
pub open spec fn hex_lower(bytes: Seq<u8>) -> Seq<char>
    decreases bytes.len(),
{
    if bytes.len() == 0 {
        Seq::empty()
    } else {
        seq![hex_digits()[bytes[0] as int / 16], hex_digits()[bytes[0] as int % 16]] + hex_lower(
            bytes.skip(1),
        )
    }
}

/// The name of the file that holds the records of `username`.
pub open spec fn hashed(data: Seq<char>) -> Seq<char> {
    hex_lower(sha256(vstd::utf8::encode_utf8(data)))
}

/// The lowercase hexadecimal digit of a value below 16.
pub fn hex_digit(n: u8) -> (c: char)
    requires
        n < 16,
    ensures
        c == hex_digits()[n as int],
{
    if n == 0 {
        '0'
    } else if n == 1 {
        '1'
    } else if n == 2 {
        '2'
    } else if n == 3 {
        '3'
    } else if n == 4 {
        '4'
    } else if n == 5 {
        '5'
    } else if n == 6 {
        '6'
    } else if n == 7 {
        '7'
    } else if n == 8 {
        '8'
    } else if n == 9 {
        '9'
    } else if n == 10 {
        'a'
    } else if n == 11 {
        'b'
    } else if n == 12 {
        'c'
    } else if n == 13 {
        'd'
    } else if n == 14 {
        'e'
    } else {
        'f'
    }
}

/// The SHA-256 digest of `data` in lowercase hexadecimal: the name under
/// which a user's records are kept.
pub fn hash(data: String) -> (r: String)
    ensures
        r@ == hashed(data@),
{
    let digest: [u8; 32] = sha256_digest(data.as_str().as_bytes());
    let mut out: String = String::new();
    let mut i: usize = 0;
    proof {
        assert(digest@.skip(0) =~= digest@);
        assert(out@ + hex_lower(digest@) =~= hex_lower(digest@));
    }
    while i < 32
        invariant
            i <= 32,
            digest@.len() == 32,
            out@ + hex_lower(digest@.skip(i as int)) == hex_lower(digest@),
        decreases 32 - i,
    {
        let ghost prev = out@;
        let b: u8 = digest[i];
        proof {
            assert(digest@.skip(i as int).skip(1) =~= digest@.skip(i + 1));
            assert(digest@.skip(i as int)[0] == b);
        }
        out.push(hex_digit(b / 16));
        out.push(hex_digit(b % 16));
        proof {
            assert(out@ + hex_lower(digest@.skip(i + 1)) =~= prev + hex_lower(
                digest@.skip(i as int),
            ));
        }
        i = i + 1;
    }
    proof {
        assert(digest@.skip(32) =~= Seq::<u8>::empty());
        assert(out@ =~= hex_lower(digest@));
    }
    out
}

} // verus!
