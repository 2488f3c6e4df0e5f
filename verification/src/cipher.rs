//! The primitives that the bearer-token envelope is built from: BLAKE3 for
//! key and nonce derivation, AES-256-GCM-SIV for the sealed part, Base64 for
//! the text form, the system clock and the thread's random generator. None
//! of them is proved here; each function below states what is taken on trust.

use aes_gcm_siv::aead::Aead;
use aes_gcm_siv::aead::KeyInit;
use rand::Rng;
use vstd::prelude::*;
use vstd::utf8::encode_utf8;
use vstd::utf8::valid_utf8;

verus! {

/// Bytes of nonce that the cipher takes.
pub const NONCE_LEN: usize = 12;

/// Bytes of authentication tag that the cipher appends.
pub const ENCRYPT_TAG_LEN: usize = 16;

/// Random bytes sealed into each token.
pub const RANDOM_CODE_LEN: usize = 16;

/// Bytes of key that the cipher takes, and of every BLAKE3 output used here.
pub const KEY_LEN: usize = 32;

/// The longest plaintext that the cipher seals, in bytes.
pub const SEAL_MAX_LEN: u64 = 0x10_0000_0000;

/// The BLAKE3 hash of `input`.
pub uninterp spec fn blake3_digest(input: Seq<u8>) -> Seq<u8>;

/// The key that BLAKE3 derives from `key_material` under `context`.
pub uninterp spec fn derived_key(context: Seq<char>, key_material: Seq<u8>) -> Seq<u8>;

/// What AES-256-GCM-SIV makes of `plaintext` under `key` and `nonce`, with no
/// associated data: ciphertext and tag, or nothing where the cipher refuses.
pub uninterp spec fn aead_sealed(key: Seq<u8>, nonce: Seq<u8>, plaintext: Seq<u8>) -> Option<
    Seq<u8>,
>;

/// What AES-256-GCM-SIV recovers from `sealed` under `key` and `nonce`, or
/// nothing where the tag does not authenticate.
pub uninterp spec fn aead_opened(key: Seq<u8>, nonce: Seq<u8>, sealed: Seq<u8>) -> Option<Seq<u8>>;

/// The Base64 text of `bytes`, in the standard alphabet, without line breaks.
pub uninterp spec fn base64_encoded(bytes: Seq<u8>) -> Seq<char>;

/// The bytes that a lenient Base64 reader finds in `text`. It passes over
/// white space, stops at a byte 0xFF with what it has read, and finds
/// nothing where it meets another byte outside the alphabet and padding.
pub uninterp spec fn base64_decoded(text: Seq<u8>) -> Option<Seq<u8>>;

/// Calls `blake3::hash`. Trusted: the result is the 32-byte digest of `input`.
#[verifier::external_body]
pub(crate) fn blake3_hash(input: &[u8]) -> (digest: Vec<u8>)
    ensures
        digest@ == blake3_digest(input@),
        digest@.len() == KEY_LEN,
{
    blake3::hash(input).as_bytes().to_vec()
}

/// Calls `blake3::derive_key`. Trusted: the result is the 32-byte key
/// derived from `key_material` under `context`.
#[verifier::external_body]
pub(crate) fn blake3_derive_key(context: &str, key_material: &[u8]) -> (key: Vec<u8>)
    ensures
        key@ == derived_key(context@, key_material@),
        key@.len() == KEY_LEN,
{
    blake3::derive_key(context, key_material).to_vec()
}

/// Calls `Aes256GcmSiv::encrypt` with an empty associated data. Trusted: the
/// result depends on key, nonce and plaintext alone; on success it is the
/// ciphertext, as long as the plaintext, followed by the 16-byte tag; and
/// the cipher refuses no plaintext of `SEAL_MAX_LEN` bytes or fewer. The
/// lengths asked of key and nonce are those outside which the call panics.
#[verifier::external_body]
pub(crate) fn aead_encrypt(key: &[u8], nonce: &[u8], plaintext: &[u8]) -> (sealed: Option<Vec<u8>>)
    requires
        key@.len() == KEY_LEN,
        nonce@.len() == NONCE_LEN,
    ensures
        match sealed {
            Some(bytes) => aead_sealed(key@, nonce@, plaintext@) == Some(bytes@) && bytes@.len()
                == plaintext@.len() + ENCRYPT_TAG_LEN,
            None => aead_sealed(key@, nonce@, plaintext@) is None,
        },
        plaintext@.len() <= SEAL_MAX_LEN ==> sealed is Some,
{
    let cipher = aes_gcm_siv::Aes256GcmSiv::new(aes_gcm_siv::Key::<aes_gcm_siv::Aes256GcmSiv>::from_slice(key));
    cipher.encrypt(aes_gcm_siv::Nonce::from_slice(nonce), plaintext).ok()
}

/// Calls `Aes256GcmSiv::decrypt` with an empty associated data. Trusted: the
/// result depends on key, nonce and input alone; and what `encrypt` made of a
/// plaintext under a key and nonce opens to that plaintext under the same
/// key and nonce, as the crate's usage example shows.
#[verifier::external_body]
pub(crate) fn aead_decrypt(key: &[u8], nonce: &[u8], sealed: &[u8]) -> (opened: Option<Vec<u8>>)
    requires
        key@.len() == KEY_LEN,
        nonce@.len() == NONCE_LEN,
    ensures
        match opened {
            Some(bytes) => aead_opened(key@, nonce@, sealed@) == Some(bytes@),
            None => aead_opened(key@, nonce@, sealed@) is None,
        },
        forall|plaintext: Seq<u8>| #[trigger]
            aead_sealed(key@, nonce@, plaintext) == Some(sealed@) ==> opened.is_some()
                && opened.unwrap()@ == plaintext,
{
    let cipher = aes_gcm_siv::Aes256GcmSiv::new(aes_gcm_siv::Key::<aes_gcm_siv::Aes256GcmSiv>::from_slice(key));
    cipher.decrypt(aes_gcm_siv::Nonce::from_slice(nonce), sealed).ok()
}

/// Calls `mail_builder::encoders::base64::base64_encode`, whose output is
/// ASCII and whose writer, a vector, cannot fail. Trusted: the result is the
/// Base64 text of `bytes`.
#[verifier::external_body]
pub(crate) fn base64_text(bytes: &[u8]) -> (text: String)
    ensures
        text@ == base64_encoded(bytes@),
{
    let encoded = mail_builder::encoders::base64::base64_encode(bytes).unwrap_or_default();
    String::from_utf8(encoded).unwrap_or_default()
}

/// Calls `mail_parser::decoders::base64::base64_decode`. Trusted: the result
/// depends on the bytes of `text` alone.
#[verifier::external_body]
pub(crate) fn base64_bytes(text: &[u8]) -> (bytes: Option<Vec<u8>>)
    ensures
        match bytes {
            Some(b) => base64_decoded(text@) == Some(b@),
            None => base64_decoded(text@) is None,
        },
{
    mail_parser::decoders::base64::base64_decode(text)
}

/// Calls `rand::Rng::gen` on the thread's generator for an array of
/// `RANDOM_CODE_LEN` bytes. Trusted: the length, nothing of the bytes.
#[verifier::external_body]
pub(crate) fn random_code() -> (code: Vec<u8>)
    ensures
        code@.len() == RANDOM_CODE_LEN,
{
    rand::thread_rng().gen::<[u8; 16]>().to_vec()
}

/// Reads `SystemTime::now` as whole seconds since the Unix epoch, 0 for a
/// clock set before it. Nothing is claimed of the result.
#[verifier::external_body]
pub(crate) fn unix_seconds() -> (now: u64) {
    std::time::SystemTime::now().duration_since(std::time::UNIX_EPOCH).map(|d| d.as_secs()).unwrap_or(0)
}

/// Calls `String::from_utf8`. Trusted, as std documents it: the string holds
/// exactly `bytes`, and the call fails only where they are not UTF-8.
#[verifier::external_body]
pub(crate) fn utf8_string(bytes: Vec<u8>) -> (text: Option<String>)
    ensures
        match text {
            Some(s) => encode_utf8(s@) == bytes@ && valid_utf8(bytes@),
            None => !valid_utf8(bytes@),
        },
{
    String::from_utf8(bytes).ok()
}

/// The cipher of one token: AES-256-GCM-SIV under a key that binds the
/// configured secret to the token's context.
pub struct SymmetricEncrypt {
    key: Vec<u8>,
}

impl SymmetricEncrypt {
    /// The derived key.
    pub closed spec fn key(&self) -> Seq<u8> {
        self.key@
    }

    /// The key has the length that the cipher takes.
    pub closed spec fn wf(&self) -> bool {
        self.key@.len() == KEY_LEN
    }

    /// A cipher under the key derived from `key` and `context`.
    pub fn new(key: &[u8], context: &str) -> (cipher: SymmetricEncrypt)
        ensures
            cipher.wf(),
            cipher.key() == derived_key(context@, key@),
    {
        SymmetricEncrypt { key: blake3_derive_key(context, key) }
    }

    /// Seals `bytes`: ciphertext and tag, or nothing where the cipher
    /// refuses, which it does not for `SEAL_MAX_LEN` bytes or fewer.
    pub fn encrypt(&self, bytes: &[u8], nonce: &[u8]) -> (sealed: Option<Vec<u8>>)
        requires
            self.wf(),
            nonce@.len() == NONCE_LEN,
        ensures
            match sealed {
                Some(out) => aead_sealed(self.key(), nonce@, bytes@) == Some(out@) && out@.len()
                    == bytes@.len() + ENCRYPT_TAG_LEN,
                None => aead_sealed(self.key(), nonce@, bytes@) is None,
            },
            bytes@.len() <= SEAL_MAX_LEN ==> sealed is Some,
    {
        aead_encrypt(self.key.as_slice(), nonce, bytes)
    }

    /// Opens `bytes`: the plaintext, or nothing where the tag does not
    /// authenticate. What `encrypt` sealed under the same key and nonce opens.
    pub fn decrypt(&self, bytes: &[u8], nonce: &[u8]) -> (opened: Option<Vec<u8>>)
        requires
            self.wf(),
            nonce@.len() == NONCE_LEN,
        ensures
            match opened {
                Some(out) => aead_opened(self.key(), nonce@, bytes@) == Some(out@),
                None => aead_opened(self.key(), nonce@, bytes@) is None,
            },
            forall|plaintext: Seq<u8>| #[trigger]
                aead_sealed(self.key(), nonce@, plaintext) == Some(bytes@) ==> opened.is_some()
                    && opened.unwrap()@ == plaintext,
    {
        aead_decrypt(self.key.as_slice(), nonce, bytes)
    }
}

} // verus!
