//! Symmetric encryption of bytes with a shared secret.

use vstd::prelude::*;

use aes_gcm::aead::Aead;
use aes_gcm::KeyInit;

use super::SendError;
use crate::crypto::copy_bytes;

verus! {

/// Largest plaintext, in bytes, that AES-256-GCM encrypts (`2^36`).
pub const AES_GCM_MAX_PLAINTEXT: u64 = 0x10_0000_0000;

/// Largest plaintext, in bytes, that ChaCha20-Poly1305 encrypts: the keystream
/// starts at block 1 of `2^32` blocks of 64 bytes, so `64 * (2^32 - 2)`.
pub const CHACHA_MAX_PLAINTEXT: u64 = 0x3f_ffff_ff80;

/// Length in bytes of the authentication tag that ChaCha20-Poly1305 appends.
pub const CHACHA_TAG_LEN: u64 = 16;

/// What AES-256-GCM of the `aes-gcm` crate writes for a plaintext under a key and
/// a nonce, with no associated data (`None` where it refuses).
pub uninterp spec fn aes256_gcm_sealed(key: Seq<u8>, nonce: Seq<u8>, plain: Seq<u8>) -> Option<Seq<u8>>;

/// What AES-256-GCM of the `aes-gcm` crate reads from a ciphertext under a key and
/// a nonce, with no associated data (`None` where it refuses it).
pub uninterp spec fn aes256_gcm_opened(key: Seq<u8>, nonce: Seq<u8>, sealed: Seq<u8>) -> Option<Seq<u8>>;

/// What ChaCha20-Poly1305 of the `chacha20poly1305` crate writes for a plaintext
/// under a key and a nonce, with no associated data (`None` where it refuses).
pub uninterp spec fn chacha20_poly1305_sealed(key: Seq<u8>, nonce: Seq<u8>, plain: Seq<u8>) -> Option<Seq<u8>>;

/// What ChaCha20-Poly1305 of the `chacha20poly1305` crate reads from a ciphertext
/// under a key and a nonce, with no associated data (`None` where it refuses it).
pub uninterp spec fn chacha20_poly1305_opened(key: Seq<u8>, nonce: Seq<u8>, sealed: Seq<u8>) -> Option<Seq<u8>>;

/// Calls `aes_gcm::aead::Aead::encrypt` of `aes_gcm::Aes256Gcm` built with `KeyInit::new`.
/// Trusted: the ciphertext is the named function of key, nonce and plaintext, and
/// the crate refuses only plaintexts longer than `2^36` bytes.
#[verifier::external_body]
fn aes_gcm_encrypt(key: &[u8; 32], nonce: &[u8; 12], data: &[u8]) -> (sealed: Result<Vec<u8>, aes_gcm::Error>)
    ensures
        sealed is Ok <==> aes256_gcm_sealed(key@, nonce@, data@) is Some,
        sealed matches Ok(c) ==> c@ == aes256_gcm_sealed(key@, nonce@, data@)->Some_0,
        sealed is Err ==> data@.len() > AES_GCM_MAX_PLAINTEXT,
{
    let cipher = aes_gcm::Aes256Gcm::new(&(*key).into());
    cipher.encrypt(&(*nonce).into(), data)
}

/// Calls `aes_gcm::aead::Aead::decrypt` of `aes_gcm::Aes256Gcm` built with `KeyInit::new`.
/// Trusted: the plaintext is the named function of key, nonce and ciphertext, and
/// decrypting what `encrypt` wrote under the same key and nonce gives the plaintext.
#[verifier::external_body]
fn aes_gcm_decrypt(key: &[u8; 32], nonce: &[u8; 12], data: &[u8]) -> (plain: Result<Vec<u8>, aes_gcm::Error>)
    ensures
        plain is Ok <==> aes256_gcm_opened(key@, nonce@, data@) is Some,
        plain matches Ok(p) ==> p@ == aes256_gcm_opened(key@, nonce@, data@)->Some_0,
        plain matches Ok(p) ==> forall|source: Seq<u8>|
            aes256_gcm_sealed(key@, nonce@, source) == Some(data@) ==> p@ == source,
        plain is Err ==> forall|source: Seq<u8>|
            aes256_gcm_sealed(key@, nonce@, source) != Some(data@),
{
    let cipher = aes_gcm::Aes256Gcm::new(&(*key).into());
    cipher.decrypt(&(*nonce).into(), data)
}

/// Calls `chacha20poly1305::aead::Aead::encrypt` of `chacha20poly1305::ChaCha20Poly1305`
/// built with `KeyInit::new`. Trusted: on plaintexts of at most `64 * (2^32 - 2)`
/// bytes (longer ones can make the crate panic) it succeeds, and the ciphertext is
/// the named function of key, nonce and plaintext, with a 16-byte tag appended.
#[verifier::external_body]
fn chacha_encrypt(key: &[u8; 32], nonce: &[u8; 12], data: &[u8]) -> (sealed: Result<Vec<u8>, aes_gcm::Error>)
    requires
        data@.len() <= CHACHA_MAX_PLAINTEXT,
    ensures
        sealed is Ok,
        sealed is Ok <==> chacha20_poly1305_sealed(key@, nonce@, data@) is Some,
        sealed matches Ok(c) ==> c@ == chacha20_poly1305_sealed(key@, nonce@, data@)->Some_0,
        sealed matches Ok(c) ==> c@.len() == data@.len() + CHACHA_TAG_LEN,
{
    let cipher = chacha20poly1305::ChaCha20Poly1305::new(&(*key).into());
    cipher.encrypt(&(*nonce).into(), data)
}

/// Calls `chacha20poly1305::aead::Aead::decrypt` of `chacha20poly1305::ChaCha20Poly1305`
/// built with `KeyInit::new`. Trusted, on ciphertexts of at most `64 * (2^32 - 2)`
/// bytes plus the 16-byte tag (longer ones can make the crate panic): the
/// plaintext is the named function of key, nonce and ciphertext, and decrypting
/// what `encrypt` wrote under the same key and nonce gives the plaintext.
#[verifier::external_body]
fn chacha_decrypt(key: &[u8; 32], nonce: &[u8; 12], data: &[u8]) -> (plain: Result<Vec<u8>, aes_gcm::Error>)
    requires
        data@.len() <= CHACHA_MAX_PLAINTEXT + CHACHA_TAG_LEN,
    ensures
        plain is Ok <==> chacha20_poly1305_opened(key@, nonce@, data@) is Some,
        plain matches Ok(p) ==> p@ == chacha20_poly1305_opened(key@, nonce@, data@)->Some_0,
        plain matches Ok(p) ==> forall|source: Seq<u8>|
            chacha20_poly1305_sealed(key@, nonce@, source) == Some(data@) ==> p@ == source,
        plain is Err ==> forall|source: Seq<u8>|
            chacha20_poly1305_sealed(key@, nonce@, source) != Some(data@),
{
    let cipher = chacha20poly1305::ChaCha20Poly1305::new(&(*key).into());
    cipher.decrypt(&(*nonce).into(), data)
}

/// What ChaCha20-Poly1305 writes for a message under a secret with the message
/// nonce: nothing for plaintexts it cannot take, otherwise the ciphertext, which
/// is 16 bytes longer than the plaintext.
pub open spec fn chacha_sealed_bytes(secret: Seq<u8>, data: Seq<u8>) -> Option<Seq<u8>> {
    if data.len() > CHACHA_MAX_PLAINTEXT {
        None
    } else {
        match chacha20_poly1305_sealed(secret, message_nonce(), data) {
            Some(c) => if c.len() == data.len() + CHACHA_TAG_LEN {
                Some(c)
            } else {
                None
            },
            None => None,
        }
    }
}

/// What ChaCha20-Poly1305 reads from a ciphertext under a secret with the message
/// nonce: nothing for ciphertexts longer than any it writes.
pub open spec fn chacha_opened_bytes(secret: Seq<u8>, data: Seq<u8>) -> Option<Seq<u8>> {
    if data.len() > CHACHA_MAX_PLAINTEXT + CHACHA_TAG_LEN {
        None
    } else {
        chacha20_poly1305_opened(secret, message_nonce(), data)
    }
}

/// Algorithm that encrypts bytes with a 32-byte shared secret.
#[derive(Default, Debug, Clone, Copy, PartialEq, Eq, Hash, Structural)]
pub enum TextEncryption {
    #[default]
    Unencrypted,
    Aes256Gcm,
    ChaCha20Poly1305,
}

/// The nonce with which messages are encrypted: twelve zero bytes.
pub open spec fn message_nonce() -> Seq<u8> {
    Seq::new(12, |i: int| 0u8)
}

/// What an encryption writes for some bytes (`None` where it refuses them).
pub open spec fn encrypted_bytes(encryption: TextEncryption, secret: Seq<u8>, data: Seq<u8>) -> Option<Seq<u8>> {
    match encryption {
        TextEncryption::Unencrypted => Some(data),
        TextEncryption::Aes256Gcm => aes256_gcm_sealed(secret, message_nonce(), data),
        TextEncryption::ChaCha20Poly1305 => chacha_sealed_bytes(secret, data),
    }
}

/// What an encryption reads from some bytes (`None` where it refuses them).
pub open spec fn decrypted_bytes(encryption: TextEncryption, secret: Seq<u8>, data: Seq<u8>) -> Option<Seq<u8>> {
    match encryption {
        TextEncryption::Unencrypted => Some(data),
        TextEncryption::Aes256Gcm => aes256_gcm_opened(secret, message_nonce(), data),
        TextEncryption::ChaCha20Poly1305 => chacha_opened_bytes(secret, data),
    }
}

/// The message nonce is twelve zero bytes.
pub proof fn lemma_message_nonce()
    ensures
        message_nonce().len() == 12,
        forall|i: int| 0 <= i < 12 ==> message_nonce()[i] == 0u8,
{
}

/// Each encryption is the algorithm it names, under the secret and the message
/// nonce: none leaves the bytes as they are; AES-256-GCM writes and reads what
/// the `aes-gcm` crate does; ChaCha20-Poly1305 writes what the `chacha20poly1305`
/// crate does, on plaintexts it can take, and reads what it does.
pub proof fn lemma_encryption_algorithms(secret: Seq<u8>, data: Seq<u8>)
    ensures
        encrypted_bytes(TextEncryption::Unencrypted, secret, data) == Some(data),
        decrypted_bytes(TextEncryption::Unencrypted, secret, data) == Some(data),
        encrypted_bytes(TextEncryption::Aes256Gcm, secret, data) == aes256_gcm_sealed(
            secret,
            message_nonce(),
            data,
        ),
        decrypted_bytes(TextEncryption::Aes256Gcm, secret, data) == aes256_gcm_opened(
            secret,
            message_nonce(),
            data,
        ),
        encrypted_bytes(TextEncryption::ChaCha20Poly1305, secret, data) is Some ==> data.len()
            <= CHACHA_MAX_PLAINTEXT && encrypted_bytes(TextEncryption::ChaCha20Poly1305, secret, data)
            == chacha20_poly1305_sealed(secret, message_nonce(), data),
        data.len() <= CHACHA_MAX_PLAINTEXT + CHACHA_TAG_LEN ==> decrypted_bytes(
            TextEncryption::ChaCha20Poly1305,
            secret,
            data,
        ) == chacha20_poly1305_opened(secret, message_nonce(), data),
{
}

/// Twelve zero bytes.
fn zero_nonce() -> (nonce: [u8; 12])
    ensures
        nonce@ == message_nonce(),
{
    let nonce = [0u8; 12];
    proof {
        assert(nonce@ =~= message_nonce());
    }
    nonce
}

impl TextEncryption {
    /// Encrypt bytes with `secret`.
    pub fn encrypt(&self, data: &[u8], secret: [u8; 32]) -> (encrypted: Result<Vec<u8>, SendError>)
        ensures
            encrypted is Ok <==> encrypted_bytes(*self, secret@, data@) is Some,
            encrypted matches Ok(e) ==> e@ == encrypted_bytes(*self, secret@, data@)->Some_0,
            encrypted matches Err(e) ==> e == SendError::TextEncryptionFailed,
            *self == TextEncryption::Aes256Gcm && data@.len() <= AES_GCM_MAX_PLAINTEXT
                ==> encrypted is Ok,
            *self == TextEncryption::ChaCha20Poly1305 && data@.len() <= CHACHA_MAX_PLAINTEXT
                ==> encrypted is Ok,
            *self == TextEncryption::Unencrypted ==> (encrypted matches Ok(e) && e@ == data@),
            *self == TextEncryption::Aes256Gcm ==> (encrypted is Ok <==> aes256_gcm_sealed(
                secret@,
                message_nonce(),
                data@,
            ) is Some),
            *self == TextEncryption::Aes256Gcm ==> (encrypted matches Ok(e) ==> e@ == aes256_gcm_sealed(
                secret@,
                message_nonce(),
                data@,
            )->Some_0),
            *self == TextEncryption::ChaCha20Poly1305 ==> (encrypted is Ok <==> data@.len()
                <= CHACHA_MAX_PLAINTEXT),
            *self == TextEncryption::ChaCha20Poly1305 ==> (encrypted matches Ok(e) ==> e@
                == chacha20_poly1305_sealed(secret@, message_nonce(), data@)->Some_0 && e@.len()
                == data@.len() + CHACHA_TAG_LEN),
    {
        match self {
            TextEncryption::Unencrypted => Ok(copy_bytes(data)),
            TextEncryption::Aes256Gcm => match aes_gcm_encrypt(&secret, &zero_nonce(), data) {
                Ok(e) => Ok(e),
                Err(_) => Err(SendError::TextEncryptionFailed),
            },
            TextEncryption::ChaCha20Poly1305 => {
                if data.len() as u64 > CHACHA_MAX_PLAINTEXT {
                    return Err(SendError::TextEncryptionFailed);
                }
                match chacha_encrypt(&secret, &zero_nonce(), data) {
                    Ok(e) => Ok(e),
                    Err(_) => Err(SendError::TextEncryptionFailed),
                }
            },
        }
    }

    /// Decrypt bytes with `secret`; decrypting what `encrypt` wrote with the same
    /// secret gives the bytes back.
    pub fn decrypt(&self, data: &[u8], secret: [u8; 32]) -> (decrypted: Result<Vec<u8>, SendError>)
        ensures
            decrypted is Ok <==> decrypted_bytes(*self, secret@, data@) is Some,
            decrypted matches Ok(d) ==> d@ == decrypted_bytes(*self, secret@, data@)->Some_0,
            decrypted matches Err(e) ==> e == SendError::TextDecryptionFailed,
            forall|source: Seq<u8>|
                #[trigger] encrypted_bytes(*self, secret@, source) == Some(data@) ==> (
                decrypted matches Ok(d) && d@ == source),
            *self == TextEncryption::Unencrypted ==> (decrypted matches Ok(d) && d@ == data@),
            *self == TextEncryption::Aes256Gcm ==> (decrypted is Ok <==> aes256_gcm_opened(
                secret@,
                message_nonce(),
                data@,
            ) is Some),
            *self == TextEncryption::Aes256Gcm ==> (decrypted matches Ok(d) ==> d@ == aes256_gcm_opened(
                secret@,
                message_nonce(),
                data@,
            )->Some_0),
            *self == TextEncryption::ChaCha20Poly1305 ==> (decrypted is Ok <==> data@.len()
                <= CHACHA_MAX_PLAINTEXT + CHACHA_TAG_LEN && chacha20_poly1305_opened(
                secret@,
                message_nonce(),
                data@,
            ) is Some),
            *self == TextEncryption::ChaCha20Poly1305 ==> (decrypted matches Ok(d) ==> d@
                == chacha20_poly1305_opened(secret@, message_nonce(), data@)->Some_0),
    {
        match self {
            TextEncryption::Unencrypted => Ok(copy_bytes(data)),
            TextEncryption::Aes256Gcm => match aes_gcm_decrypt(&secret, &zero_nonce(), data) {
                Ok(d) => Ok(d),
                Err(_) => Err(SendError::TextDecryptionFailed),
            },
            TextEncryption::ChaCha20Poly1305 => {
                if data.len() as u64 > CHACHA_MAX_PLAINTEXT + CHACHA_TAG_LEN {
                    return Err(SendError::TextDecryptionFailed);
                }
                match chacha_decrypt(&secret, &zero_nonce(), data) {
                    Ok(d) => Ok(d),
                    Err(_) => Err(SendError::TextDecryptionFailed),
                }
            },
        }
    }
}

} // verus!
