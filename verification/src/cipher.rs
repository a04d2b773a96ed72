//! One sealed record: the key it was sealed under, and the salt, nonce and
//! ciphertext that make up its frame.

use vstd::prelude::*;
use vstd::utf8::*;
use crate::crypto::{
    aes_gcm_siv_open, aes_gcm_siv_seal, derived_key, open, random_nonce, seal, DerivedKey,
    NONCE_LEN, SALT_LEN, TAG_LEN,
};
use crate::frame::{append_bytes, frame_bytes, u32_to_be};
use crate::payload::{
    has_two_tokens, is_payload, lemma_marshal_round_trip, marshal, marshalled, survives_escaping,
    unmarshal, unmarshalled,
};
use crate::text::string_from_utf8;

verus! {

/// Why an operation of the engine did not go through.
#[derive(Debug, Clone, PartialEq)]
pub enum UserError {
    /// No file holds records for the user.
    UserNotFound,
    /// A file for the user is already there.
    AlreadyExists,
    /// The stored records cannot be read under the master password.
    IntegrityFailure,
    /// A ciphertext did not authenticate, or did not hold a payload.
    DecryptionFailure,
    /// The bytes do not start with a whole frame.
    ParseFailure,
    /// The domain already has a record.
    DuplicateRecord(String),
    /// The domain has no record.
    RecordNotFound(String),
    /// The payload cannot be sealed into a frame.
    EncryptFailure,
}

/// A domain and the password stored for it.
#[derive(Debug, Clone, PartialEq)]
pub struct DomainPasswordPair {
    pub domain: String,
    pub password: String,
}

/// A sealed record as plain sequences of bytes.
pub struct CipherView {
    pub key: Seq<u8>,
    pub salt: Seq<u8>,
    pub nonce: Seq<u8>,
    pub ciphertext: Seq<u8>,
}

impl CipherView {
    /// The frame that stores this record.
    pub open spec fn frame(self) -> Seq<u8> {
        frame_bytes(self.salt, self.nonce, self.ciphertext)
    }

    /// Whether the record fits a frame: a salt of 22 bytes, a nonce of 12
    /// bytes, and a ciphertext whose length the four bytes of the length
    /// field can hold.
    pub open spec fn fits(self) -> bool {
        &&& self.salt.len() == SALT_LEN
        &&& self.nonce.len() == NONCE_LEN
        &&& self.ciphertext.len() <= u32::MAX
    }
}

/// The UTF-8 bytes of the payload of a domain and a password.
pub open spec fn payload_bytes(domain: Seq<char>, password: Seq<char>) -> Seq<u8> {
    encode_utf8(marshalled(domain, password))
}

/// The domain and password that a sealed record opens to, or `None` where
/// the ciphertext does not authenticate under the record's key, or what it
/// holds is no payload.
pub open spec fn decrypted(c: CipherView) -> Option<(Seq<char>, Seq<char>)> {
    match aes_gcm_siv_open(c.key, c.nonce, c.ciphertext) {
        None => None,
        Some(plain) => if valid_utf8(plain) && has_two_tokens(decode_utf8(plain)) {
            Some(unmarshalled(decode_utf8(plain)))
        } else {
            None
        },
    }
}

/// A sealed record that opens to the payload of a domain and a password
/// that survive escaping opens to exactly that domain and password.
pub proof fn lemma_decrypt_of_sealed(c: CipherView, domain: Seq<char>, password: Seq<char>)
    requires
        aes_gcm_siv_open(c.key, c.nonce, c.ciphertext) == Some(payload_bytes(domain, password)),
        survives_escaping(domain),
        survives_escaping(password),
    ensures
        decrypted(c) == Some((domain, password)),
{
    let text = marshalled(domain, password);
    encode_utf8_valid_utf8(text);
    encode_utf8_decode_utf8(text);
    lemma_marshal_round_trip(domain, password);
}

/// A sealed record.
#[derive(Debug, Clone, PartialEq)]
pub struct CipherConfig {
    pub key: [u8; 16],
    pub salt: Vec<u8>,
    pub nonce: [u8; 12],
    pub ciphertext: Vec<u8>,
}

impl View for CipherConfig {
    type V = CipherView;

    open spec fn view(&self) -> CipherView {
        CipherView {
            key: self.key@,
            salt: self.salt@,
            nonce: self.nonce@,
            ciphertext: self.ciphertext@,
        }
    }
}

impl CipherConfig {
    /// Whether the record fits a frame.
    pub open spec fn wf(&self) -> bool {
        self@.fits()
    }

    /// Puts the parts of a sealed record together.
    pub fn new(key: [u8; 16], salt: Vec<u8>, nonce: [u8; 12], ciphertext: Vec<u8>) -> (r: Self)
        ensures
            r.key == key,
            r.salt == salt,
            r.nonce == nonce,
            r.ciphertext == ciphertext,
    {
        CipherConfig { key, salt, nonce, ciphertext }
    }

    /// Joins a domain and a password into one payload.
    pub fn marshal(domain: &str, password: &str) -> (r: String)
        ensures
            r@ == marshalled(domain@, password@),
    {
        marshal(domain, password)
    }

    /// Splits a payload into its domain and password.
    pub fn unmarshal(data: &str) -> (r: (String, String))
        requires
            has_two_tokens(data@),
        ensures
            (r.0@, r.1@) == unmarshalled(data@),
    {
        unmarshal(data)
    }

    /// Appends the record's frame to `buffer`.
    pub fn write(&self, buffer: &mut Vec<u8>)
        requires
            self.wf(),
        ensures
            final(buffer)@ == old(buffer)@ + self@.frame(),
    {
        let ghost before = buffer@;
        let ciphertext_len: u32 = self.ciphertext.len() as u32;
        let len_field: [u8; 4] = u32_to_be(ciphertext_len);
        append_bytes(buffer, self.salt.as_slice());
        append_bytes(buffer, self.nonce.as_slice());
        append_bytes(buffer, len_field.as_slice());
        append_bytes(buffer, self.ciphertext.as_slice());
        proof {
            assert(buffer@ =~= before + self@.frame());
        }
    }

    /// Seals a domain and a password under a given key and nonce. It fails
    /// only where the ciphertext would be longer than a frame can announce.
    pub fn seal_payload(derived: DerivedKey, nonce: [u8; 12], domain: &str, password: &str) -> (r:
        Result<Self, UserError>)
        ensures
            r is Ok <==> payload_bytes(domain@, password@).len() + TAG_LEN <= u32::MAX,
            r matches Ok(c) ==> {
                &&& c.key == derived.key
                &&& c.salt == derived.salt
                &&& c.nonce == nonce
                &&& aes_gcm_siv_seal(c.key@, c.nonce@, payload_bytes(domain@, password@)) == Some(
                    c.ciphertext@,
                )
                &&& aes_gcm_siv_open(c.key@, c.nonce@, c.ciphertext@) == Some(
                    payload_bytes(domain@, password@),
                )
                &&& c.ciphertext@.len() == payload_bytes(domain@, password@).len() + TAG_LEN
                &&& survives_escaping(domain@) && survives_escaping(password@) ==> decrypted(c@)
                    == Some((domain@, password@))
            },
            r matches Err(e) ==> e is EncryptFailure,
    {
        let data: String = marshal(domain, password);
        let plain: &[u8] = data.as_str().as_bytes();
        if plain.len() > 0xFFFF_FFEF {
            return Err(UserError::EncryptFailure);
        }
        match seal(&derived.key, &nonce, plain) {
            Some(ciphertext) => {
                let c = CipherConfig::new(derived.key, derived.salt, nonce, ciphertext);
                proof {
                    if survives_escaping(domain@) && survives_escaping(password@) {
                        lemma_decrypt_of_sealed(c@, domain@, password@);
                    }
                }
                Ok(c)
            },
            None => Err(UserError::EncryptFailure),
        }
    }

    /// Seals a domain and a password under a key freshly derived from the
    /// master password, with a fresh salt and a fresh nonce. It fails only
    /// where the ciphertext would be longer than a frame can announce.
    pub fn encrypt_data(domain: &str, password: &str, master_password: &str) -> (r: Result<
        Self,
        UserError,
    >)
        ensures
            r is Ok <==> payload_bytes(domain@, password@).len() + TAG_LEN <= u32::MAX,
            r matches Ok(c) ==> {
                &&& c.wf()
                &&& c.key@ == derived_key(encode_utf8(master_password@), c.salt@)
                &&& aes_gcm_siv_seal(c.key@, c.nonce@, payload_bytes(domain@, password@)) == Some(
                    c.ciphertext@,
                )
                &&& aes_gcm_siv_open(c.key@, c.nonce@, c.ciphertext@) == Some(
                    payload_bytes(domain@, password@),
                )
                &&& c.ciphertext@.len() == payload_bytes(domain@, password@).len() + TAG_LEN
                &&& survives_escaping(domain@) && survives_escaping(password@) ==> decrypted(c@)
                    == Some((domain@, password@))
            },
            r matches Err(e) ==> e is EncryptFailure,
    {
        let derived: DerivedKey = DerivedKey::derive_key(master_password, None);
        let nonce: [u8; 12] = random_nonce();
        CipherConfig::seal_payload(derived, nonce, domain, password)
    }

    /// Opens the record under its own key and reads the domain and password
    /// from the payload.
    pub fn decrypt_data(&self) -> (r: Result<DomainPasswordPair, UserError>)
        ensures
            match r {
                Ok(pair) => decrypted(self@) == Some((pair.domain@, pair.password@)),
                Err(e) => decrypted(self@) is None && e is DecryptionFailure,
            },
    {
        let plain: Vec<u8> = match open(&self.key, &self.nonce, self.ciphertext.as_slice()) {
            Some(plain) => plain,
            None => return Err(UserError::DecryptionFailure),
        };
        let text: String = match string_from_utf8(plain) {
            Some(text) => text,
            None => return Err(UserError::DecryptionFailure),
        };
        if !is_payload(text.as_str()) {
            return Err(UserError::DecryptionFailure);
        }
        let (domain, password) = unmarshal(text.as_str());
        Ok(DomainPasswordPair { domain, password })
    }
}

} // verus!
