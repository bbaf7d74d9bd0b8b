//! Encryption of stored notes with AES-256-GCM: a random nonce, then the
//! ciphertext, then the authentication tag.

use vstd::prelude::*;
use aes_gcm::aead::{Aead, AeadCore, KeyInit, OsRng};
use aes_gcm::Aes256Gcm;

verus! {

#[derive(Debug, Clone)]
pub enum CryptoError {
    EncryptFailed(String),
    DecryptFailed(String),
    KeyNotFound,
}

/// The text of a crypto error, as it is shown to the user.
pub open spec fn crypto_error_text(e: CryptoError) -> Seq<char> {
    match e {
        CryptoError::EncryptFailed(m) => "Encryption failed: "@ + m@,
        CryptoError::DecryptFailed(m) => "Decryption failed: "@ + m@,
        CryptoError::KeyNotFound => "Key not found in keychain"@,
    }
}

impl CryptoError {
    /// The text of this error, as it is shown to the user.
    pub fn message(&self) -> (r: String)
        ensures
            r@ == crypto_error_text(*self),
    {
        match self {
            CryptoError::EncryptFailed(m) => {
                let mut s = String::from_str("Encryption failed: ");
                s.append(m.as_str());
                s
            },
            CryptoError::DecryptFailed(m) => {
                let mut s = String::from_str("Decryption failed: ");
                s.append(m.as_str());
                s
            },
            CryptoError::KeyNotFound => String::from_str("Key not found in keychain"),
        }
    }
}

/// Key length of AES-256, in bytes.
pub const KEY_LEN: usize = 32;
/// Length of the nonce that starts an encrypted message, in bytes.
pub const NONCE_LEN: usize = 12;
/// Length of the authentication tag that ends an encrypted message, in bytes.
pub const TAG_LEN: usize = 16;
/// The longest message AES-GCM encrypts, in bytes (2^36).
pub const MAX_MESSAGE_LEN: u64 = 0x10_0000_0000;

/// AES-256-GCM sealing of `plaintext` under `key` and `nonce`, with no
/// associated data: the ciphertext followed by the 16-byte tag.
pub uninterp spec fn gcm_seal(key: Seq<u8>, nonce: Seq<u8>, plaintext: Seq<u8>) -> Seq<u8>;

#[verifier::external_type_specification]
#[verifier::external_body]
pub struct ExAeadError(aes_gcm::Error);

/// `aes_gcm::Aes256Gcm::encrypt` with `key` and `nonce` and no associated
/// data. It fails exactly where the plaintext is longer than `P_MAX`
/// (2^36 bytes); otherwise it returns the sealing, which is the plaintext's
/// length plus the 16-byte tag. The sealing depends on its three inputs
/// alone and is named. Under one key and nonce the ciphertext is the
/// plaintext XORed with a fixed key stream, so no other plaintext has the
/// same sealing.
#[verifier::external_body]
fn aes256_gcm_seal(key: &[u8], nonce: &[u8], plaintext: &[u8]) -> (r: Result<Vec<u8>, aes_gcm::Error>)
    requires
        key@.len() == KEY_LEN,
        nonce@.len() == NONCE_LEN,
    ensures
        r is Ok <==> plaintext@.len() <= MAX_MESSAGE_LEN,
        r matches Ok(c) ==> c@ == gcm_seal(key@, nonce@, plaintext@) && c@.len() == plaintext@.len()
            + TAG_LEN,
        r matches Ok(c) ==> forall|p: Seq<u8>| #[trigger]
            gcm_seal(key@, nonce@, p) == c@ ==> p == plaintext@,
{
    let cipher = Aes256Gcm::new(aes_gcm::Key::<Aes256Gcm>::from_slice(key));
    cipher.encrypt(aes_gcm::Nonce::from_slice(nonce), plaintext)
}

/// `aes_gcm::Aes256Gcm::decrypt` with `key` and `nonce` and no associated
/// data. It returns a plaintext only where the tag checks, and the
/// plaintext it returns seals back to the ciphertext; it fails only where
/// no plaintext of at most `P_MAX` bytes seals to the ciphertext. Which
/// ciphertexts a wrong key happens to accept is not stated: that rests on
/// the strength of the tag, not on anything the code shows.
#[verifier::external_body]
fn aes256_gcm_open(key: &[u8], nonce: &[u8], ciphertext: &[u8]) -> (r: Result<
    Vec<u8>,
    aes_gcm::Error,
>)
    requires
        key@.len() == KEY_LEN,
        nonce@.len() == NONCE_LEN,
    ensures
        r matches Ok(p) ==> gcm_seal(key@, nonce@, p@) == ciphertext@,
        r is Err ==> forall|p: Seq<u8>| p.len() <= MAX_MESSAGE_LEN ==> #[trigger]
            gcm_seal(key@, nonce@, p) != ciphertext@,
{
    let cipher = Aes256Gcm::new(aes_gcm::Key::<Aes256Gcm>::from_slice(key));
    cipher.decrypt(aes_gcm::Nonce::from_slice(nonce), ciphertext)
}

/// A fresh 96-bit nonce from the operating system's random source
/// (`AeadCore::generate_nonce` with `OsRng`). Which nonce comes out is
/// chance; it is 12 bytes long.
#[verifier::external_body]
fn random_nonce() -> (r: Vec<u8>)
    ensures
        r@.len() == NONCE_LEN,
{
    Aes256Gcm::generate_nonce(&mut OsRng).to_vec()
}

/// `c` is a message sealed under `key` holding `data`: a nonce, then the
/// sealing of `data` under `key` and that nonce.
pub open spec fn is_sealed_message(c: Seq<u8>, key: Seq<u8>, data: Seq<u8>) -> bool {
    &&& c.len() >= NONCE_LEN
    &&& c.skip(NONCE_LEN as int) == gcm_seal(key, c.take(NONCE_LEN as int), data)
}

/// `c` opens under `key` to `data`: the key is an AES-256 key, `data` is not
/// too long to seal, and `c` is a message sealed under `key` holding it.
pub open spec fn opens_to(c: Seq<u8>, key: Seq<u8>, data: Seq<u8>) -> bool {
    &&& key.len() == KEY_LEN
    &&& data.len() <= MAX_MESSAGE_LEN
    &&& is_sealed_message(c, key, data)
}

/// `c` is what encrypting `data` under `key` gives: a nonce, the
/// ciphertext and the tag, opening to `data` and to nothing else.
pub open spec fn encrypted_message(c: Seq<u8>, key: Seq<u8>, data: Seq<u8>) -> bool {
    &&& c.len() == data.len() + NONCE_LEN + TAG_LEN
    &&& opens_to(c, key, data)
    &&& forall|p: Seq<u8>| #[trigger] is_sealed_message(c, key, p) ==> p == data
}

/// What `decrypt` returns for `data` under `key`: an error, always a
/// decryption error, and a plaintext only where `data` holds it sealed under
/// `key`; and a plaintext wherever `data` is long enough to hold a nonce and
/// a tag and opens under `key`.
pub open spec fn decrypt_outcome(data: Seq<u8>, key: Seq<u8>, r: Result<Vec<u8>, CryptoError>) -> bool {
    &&& r matches Ok(p) ==> key.len() == KEY_LEN && is_sealed_message(data, key, p@)
    &&& r matches Err(e) ==> e is DecryptFailed
    &&& (data.len() >= NONCE_LEN + TAG_LEN && exists|p: Seq<u8>| #[trigger] opens_to(data, key, p))
        ==> r is Ok
}

fn concat_bytes(a: &[u8], b: &[u8]) -> (r: Vec<u8>)
    ensures
        r@ == a@ + b@,
{
    let mut v: Vec<u8> = Vec::new();
    let mut i: usize = 0;
    while i < a.len()
        invariant
            i <= a@.len(),
            v@ == a@.take(i as int),
        decreases a@.len() - i,
    {
        v.push(a[i]);
        i = i + 1;
        assert(v@ =~= a@.take(i as int));
    }
    let mut j: usize = 0;
    while j < b.len()
        invariant
            i == a@.len(),
            j <= b@.len(),
            v@ == a@ + b@.take(j as int),
        decreases b@.len() - j,
    {
        v.push(b[j]);
        j = j + 1;
        assert(v@ =~= a@ + b@.take(j as int));
    }
    assert(a@.take(a@.len() as int) =~= a@);
    assert(b@.take(b@.len() as int) =~= b@);
    v
}

fn byte_range(a: &[u8], from: usize, to: usize) -> (r: Vec<u8>)
    requires
        from <= to <= a@.len(),
    ensures
        r@ == a@.subrange(from as int, to as int),
{
    let mut v: Vec<u8> = Vec::new();
    let mut i: usize = from;
    while i < to
        invariant
            from <= i <= to,
            to <= a@.len(),
            v@ == a@.subrange(from as int, i as int),
        decreases to - i,
    {
        v.push(a[i]);
        i = i + 1;
        assert(v@ =~= a@.subrange(from as int, i as int));
    }
    v
}

/// Encrypt `data` with the AES-256 key `key` (AES-256-GCM, a fresh random
/// nonce): the nonce, then the ciphertext, then the 16-byte tag. A key that
/// is not 32 bytes long, and data longer than AES-GCM takes, are refused.
pub fn encrypt(data: &[u8], key: &[u8]) -> (r: Result<Vec<u8>, CryptoError>)
    ensures
        key@.len() != KEY_LEN ==> (r matches Err(CryptoError::EncryptFailed(m)) && m@
            == "key must be 32 bytes (AES-256)"@),
        key@.len() == KEY_LEN && data@.len() > MAX_MESSAGE_LEN ==> (r matches Err(
            CryptoError::EncryptFailed(m),
        ) && m@ == "message too long for AES-GCM"@),
        key@.len() == KEY_LEN && data@.len() <= MAX_MESSAGE_LEN ==> r is Ok,
        r matches Ok(c) ==> encrypted_message(c@, key@, data@),
{
    if key.len() != KEY_LEN {
        return Err(CryptoError::EncryptFailed(String::from_str("key must be 32 bytes (AES-256)")));
    }
    let nonce = random_nonce();
    match aes256_gcm_seal(key, nonce.as_slice(), data) {
        Ok(sealed) => {
            let c = concat_bytes(nonce.as_slice(), sealed.as_slice());
            assert(c@.take(NONCE_LEN as int) =~= nonce@);
            assert(c@.skip(NONCE_LEN as int) =~= sealed@);
            Ok(c)
        },
        Err(_) => Err(CryptoError::EncryptFailed(String::from_str("message too long for AES-GCM"))),
    }
}

/// Decrypt a message made by `encrypt` with the AES-256 key `key`. A key
/// that is not 32 bytes long, a message too short to hold a nonce and a
/// tag, and a message whose tag does not check under `key` are refused.
pub fn decrypt(data: &[u8], key: &[u8]) -> (r: Result<Vec<u8>, CryptoError>)
    ensures
        key@.len() != KEY_LEN ==> (r matches Err(CryptoError::DecryptFailed(m)) && m@
            == "key must be 32 bytes (AES-256)"@),
        key@.len() == KEY_LEN && data@.len() < NONCE_LEN + TAG_LEN ==> (r matches Err(
            CryptoError::DecryptFailed(m),
        ) && m@ == "message too short"@),
        key@.len() == KEY_LEN && data@.len() >= NONCE_LEN + TAG_LEN && r is Err ==> (r matches Err(
            CryptoError::DecryptFailed(m),
        ) && m@ == "authentication failed"@),
        decrypt_outcome(data@, key@, r),
{
    if key.len() != KEY_LEN {
        return Err(CryptoError::DecryptFailed(String::from_str("key must be 32 bytes (AES-256)")));
    }
    if data.len() < NONCE_LEN + TAG_LEN {
        return Err(CryptoError::DecryptFailed(String::from_str("message too short")));
    }
    let nonce = byte_range(data, 0, NONCE_LEN);
    let body = byte_range(data, NONCE_LEN, data.len());
    assert(nonce@ =~= data@.take(NONCE_LEN as int));
    assert(body@ =~= data@.skip(NONCE_LEN as int));
    match aes256_gcm_open(key, nonce.as_slice(), body.as_slice()) {
        Ok(p) => Ok(p),
        Err(_) => {
            proof {
                assert forall|p: Seq<u8>| !#[trigger] opens_to(data@, key@, p) by {
                    if opens_to(data@, key@, p) {
                        assert(gcm_seal(key@, nonce@, p) == body@);
                    }
                }
            }
            Err(CryptoError::DecryptFailed(String::from_str("authentication failed")))
        },
    }
}

/// Decrypting what `encrypt` made of `data` under `key`, with the same key,
/// gives `data` back.
pub proof fn lemma_decrypt_inverts_encrypt(
    c: Seq<u8>,
    key: Seq<u8>,
    data: Seq<u8>,
    r: Result<Vec<u8>, CryptoError>,
)
    requires
        encrypted_message(c, key, data),
        decrypt_outcome(c, key, r),
    ensures
        r matches Ok(p) && p@ == data,
{
    assert(opens_to(c, key, data));
}

} // verus!
