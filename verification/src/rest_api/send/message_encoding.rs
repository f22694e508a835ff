//! Encoding of a message: compression, then encryption, then a text encoding.

use vstd::prelude::*;

use super::SendError;
use super::text_encoding::{TextEncoding, encoded_text, decoded_text};
use super::text_encryption::{
    TextEncryption, encrypted_bytes, decrypted_bytes, AES_GCM_MAX_PLAINTEXT, CHACHA_MAX_PLAINTEXT,
};
use super::text_compression::{TextCompression, compressed_bytes, decompressed_bytes, deflate_compressed};
use super::text_encryption::{message_nonce, aes256_gcm_sealed, chacha20_poly1305_sealed, CHACHA_TAG_LEN};
use crate::crypto::base64_encoded;
use crate::text::{owned, text_eq};

verus! {

/// How a message's bytes become text and back.
#[derive(Default, Debug, Clone, Copy, PartialEq, Eq, Hash, Structural)]
pub struct MessageEncoding {
    pub encoding: TextEncoding,
    pub encryption: TextEncryption,
    pub compression: TextCompression,
}

/// The text that `forward` writes for a message (`None` where a step refuses it).
pub open spec fn message_encoded(e: MessageEncoding, secret: Seq<u8>, message: Seq<u8>) -> Option<Seq<char>> {
    match compressed_bytes(e.compression, message) {
        None => None,
        Some(compressed) => match encrypted_bytes(e.encryption, secret, compressed) {
            None => None,
            Some(encrypted) => Some(encoded_text(e.encoding, encrypted)),
        },
    }
}

/// Whether an encryption takes a plaintext of `len` bytes: AES-256-GCM up to
/// `2^36` bytes, ChaCha20-Poly1305 up to `64 * (2^32 - 2)` bytes.
pub open spec fn encryption_accepts(encryption: TextEncryption, len: nat) -> bool {
    match encryption {
        TextEncryption::Unencrypted => true,
        TextEncryption::Aes256Gcm => len <= AES_GCM_MAX_PLAINTEXT,
        TextEncryption::ChaCha20Poly1305 => len <= CHACHA_MAX_PLAINTEXT,
    }
}

/// Whether `forward` is owed success on a message: its compressed form is short
/// enough for the encryption.
pub open spec fn message_encodable(e: MessageEncoding, message: Seq<u8>) -> bool {
    match compressed_bytes(e.compression, message) {
        Some(c) => encryption_accepts(e.encryption, c.len()),
        None => true,
    }
}

/// The error of the first step of `forward` that refuses a message.
pub open spec fn message_encode_error(e: MessageEncoding, secret: Seq<u8>, message: Seq<u8>) -> SendError {
    match compressed_bytes(e.compression, message) {
        None => SendError::TextCompressionFailed,
        Some(_) => SendError::TextEncryptionFailed,
    }
}

/// What `backward` reads from a text: the message, or the error of the first step that refuses.
pub open spec fn message_decoded(e: MessageEncoding, secret: Seq<u8>, text: Seq<char>) -> Result<Seq<u8>, SendError> {
    match decoded_text(e.encoding, text) {
        None => Err(SendError::TextDecodingError),
        Some(encrypted) => match decrypted_bytes(e.encryption, secret, encrypted) {
            None => Err(SendError::TextDecryptionFailed),
            Some(compressed) => match decompressed_bytes(e.compression, compressed) {
                None => Err(SendError::TextDecompressionFailed),
                Some(message) => Ok(message),
            },
        },
    }
}

/// The name of each message encoding.
pub open spec fn message_encoding_name(e: MessageEncoding) -> Seq<char> {
    match (e.encryption, e.compression) {
        (TextEncryption::Unencrypted, TextCompression::Uncompressed) => "base64/plain"@,
        (TextEncryption::Unencrypted, TextCompression::Deflate) => "base64/deflate"@,
        (TextEncryption::Aes256Gcm, TextCompression::Uncompressed) => "base64/aes256-gcm"@,
        (TextEncryption::ChaCha20Poly1305, TextCompression::Uncompressed) => "base64/chacha20-poly1305"@,
        (TextEncryption::Aes256Gcm, TextCompression::Deflate) => "base64/aes256-gcm/deflate"@,
        (TextEncryption::ChaCha20Poly1305, TextCompression::Deflate) => "base64/chacha20-poly1305/deflate"@,
    }
}

/// The message encoding that a name stands for, if any.
pub open spec fn message_encoding_of_name(name: Seq<char>) -> Option<MessageEncoding> {
    let encoding = TextEncoding::Base64;
    if name == "base64/plain"@ {
        Some(MessageEncoding { encoding, encryption: TextEncryption::Unencrypted, compression: TextCompression::Uncompressed })
    } else if name == "base64/deflate"@ {
        Some(MessageEncoding { encoding, encryption: TextEncryption::Unencrypted, compression: TextCompression::Deflate })
    } else if name == "base64/aes256-gcm"@ {
        Some(MessageEncoding { encoding, encryption: TextEncryption::Aes256Gcm, compression: TextCompression::Uncompressed })
    } else if name == "base64/chacha20-poly1305"@ {
        Some(MessageEncoding { encoding, encryption: TextEncryption::ChaCha20Poly1305, compression: TextCompression::Uncompressed })
    } else if name == "base64/aes256-gcm/deflate"@ {
        Some(MessageEncoding { encoding, encryption: TextEncryption::Aes256Gcm, compression: TextCompression::Deflate })
    } else if name == "base64/chacha20-poly1305/deflate"@ {
        Some(MessageEncoding { encoding, encryption: TextEncryption::ChaCha20Poly1305, compression: TextCompression::Deflate })
    } else {
        None
    }
}

impl MessageEncoding {
    /// Combine a text encoding, an encryption and a compression.
    pub fn new(encoding: TextEncoding, encryption: TextEncryption, compression: TextCompression) -> (e: Self)
        ensures
            e == (MessageEncoding { encoding, encryption, compression }),
    {
        MessageEncoding { encoding, encryption, compression }
    }

    /// Compress, encrypt with `secret`, and encode a message.
    pub fn forward(&self, message: &[u8], secret: &[u8; 32]) -> (text: Result<String, SendError>)
        ensures
            text is Ok <==> message_encoded(*self, secret@, message@) is Some,
            text matches Ok(t) ==> t@ == message_encoded(*self, secret@, message@)->Some_0,
            text matches Err(e) ==> e == message_encode_error(*self, secret@, message@),
            message_encodable(*self, message@) ==> text is Ok,
    {
        let compressed = self.compression.compress(message)?;
        let encrypted = self.encryption.encrypt(compressed.as_slice(), *secret)?;
        Ok(self.encoding.encode(encrypted.as_slice()))
    }

    /// Decode, decrypt with `secret`, and decompress a message. Reading a text that
    /// `forward` wrote with the same secret gives the message back.
    pub fn backward(&self, text: &str, secret: &[u8; 32]) -> (message: Result<Vec<u8>, SendError>)
        ensures
            message matches Ok(m) ==> message_decoded(*self, secret@, text@) == Ok::<Seq<u8>, SendError>(m@),
            message matches Err(e) ==> message_decoded(*self, secret@, text@) == Err::<Seq<u8>, SendError>(e),
            forall|source: Seq<u8>|
                #[trigger] message_encoded(*self, secret@, source) == Some(text@) ==> (
                message matches Ok(m) && m@ == source),
    {
        let encrypted = self.encoding.decode(text)?;
        let compressed = self.encryption.decrypt(encrypted.as_slice(), *secret)?;
        let message = self.compression.decompress(compressed.as_slice())?;
        proof {
            assert forall|source: Seq<u8>|
                #[trigger] message_encoded(*self, secret@, source) == Some(text@) implies message@
                == source by {
                let c = compressed_bytes(self.compression, source)->Some_0;
                let x = encrypted_bytes(self.encryption, secret@, c)->Some_0;
                assert(text@ == encoded_text(self.encoding, x));
                assert(encrypted@ == x);
                assert(compressed@ == c);
            }
        }
        Ok(message)
    }

    /// Read a message encoding from its name.
    pub fn from_str(name: &str) -> (e: Result<Self, SendError>)
        ensures
            e is Ok <==> message_encoding_of_name(name@) is Some,
            e matches Ok(v) ==> message_encoding_of_name(name@) == Some(v),
            e matches Err(err) ==> err matches SendError::WrongMessageEncodingFormat(t) && t@ == name@,
            name@ == "base64/plain"@ ==> (e matches Ok(v) && v == (MessageEncoding {
                encoding: TextEncoding::Base64,
                encryption: TextEncryption::Unencrypted,
                compression: TextCompression::Uncompressed,
            })),
            name@ == "base64/deflate"@ ==> (e matches Ok(v) && v == (MessageEncoding {
                encoding: TextEncoding::Base64,
                encryption: TextEncryption::Unencrypted,
                compression: TextCompression::Deflate,
            })),
            name@ == "base64/aes256-gcm"@ ==> (e matches Ok(v) && v == (MessageEncoding {
                encoding: TextEncoding::Base64,
                encryption: TextEncryption::Aes256Gcm,
                compression: TextCompression::Uncompressed,
            })),
            name@ == "base64/chacha20-poly1305"@ ==> (e matches Ok(v) && v == (MessageEncoding {
                encoding: TextEncoding::Base64,
                encryption: TextEncryption::ChaCha20Poly1305,
                compression: TextCompression::Uncompressed,
            })),
            name@ == "base64/aes256-gcm/deflate"@ ==> (e matches Ok(v) && v == (MessageEncoding {
                encoding: TextEncoding::Base64,
                encryption: TextEncryption::Aes256Gcm,
                compression: TextCompression::Deflate,
            })),
            name@ == "base64/chacha20-poly1305/deflate"@ ==> (e matches Ok(v) && v == (MessageEncoding {
                encoding: TextEncoding::Base64,
                encryption: TextEncryption::ChaCha20Poly1305,
                compression: TextCompression::Deflate,
            })),
    {
        proof {
            lemma_encoding_names_distinct();
        }
        let encoding = TextEncoding::Base64;
        if text_eq(name, "base64/plain") {
            Ok(MessageEncoding { encoding, encryption: TextEncryption::Unencrypted, compression: TextCompression::Uncompressed })
        } else if text_eq(name, "base64/deflate") {
            Ok(MessageEncoding { encoding, encryption: TextEncryption::Unencrypted, compression: TextCompression::Deflate })
        } else if text_eq(name, "base64/aes256-gcm") {
            Ok(MessageEncoding { encoding, encryption: TextEncryption::Aes256Gcm, compression: TextCompression::Uncompressed })
        } else if text_eq(name, "base64/chacha20-poly1305") {
            Ok(MessageEncoding { encoding, encryption: TextEncryption::ChaCha20Poly1305, compression: TextCompression::Uncompressed })
        } else if text_eq(name, "base64/aes256-gcm/deflate") {
            Ok(MessageEncoding { encoding, encryption: TextEncryption::Aes256Gcm, compression: TextCompression::Deflate })
        } else if text_eq(name, "base64/chacha20-poly1305/deflate") {
            Ok(MessageEncoding { encoding, encryption: TextEncryption::ChaCha20Poly1305, compression: TextCompression::Deflate })
        } else {
            Err(SendError::WrongMessageEncodingFormat(owned(name)))
        }
    }

    /// The name of the message encoding.
    pub fn to_str(&self) -> (name: &'static str)
        ensures
            name@ == message_encoding_name(*self),
            self.encryption == TextEncryption::Unencrypted && self.compression == TextCompression::Uncompressed ==> name@ == "base64/plain"@,
            self.encryption == TextEncryption::Unencrypted && self.compression == TextCompression::Deflate ==> name@ == "base64/deflate"@,
            self.encryption == TextEncryption::Aes256Gcm && self.compression == TextCompression::Uncompressed ==> name@ == "base64/aes256-gcm"@,
            self.encryption == TextEncryption::ChaCha20Poly1305 && self.compression == TextCompression::Uncompressed ==> name@ == "base64/chacha20-poly1305"@,
            self.encryption == TextEncryption::Aes256Gcm && self.compression == TextCompression::Deflate ==> name@ == "base64/aes256-gcm/deflate"@,
            self.encryption == TextEncryption::ChaCha20Poly1305 && self.compression == TextCompression::Deflate ==> name@ == "base64/chacha20-poly1305/deflate"@,
    {
        match self.encryption {
            TextEncryption::Unencrypted => match self.compression {
                TextCompression::Uncompressed => "base64/plain",
                TextCompression::Deflate => "base64/deflate",
            },
            TextEncryption::Aes256Gcm => match self.compression {
                TextCompression::Uncompressed => "base64/aes256-gcm",
                TextCompression::Deflate => "base64/aes256-gcm/deflate",
            },
            TextEncryption::ChaCha20Poly1305 => match self.compression {
                TextCompression::Uncompressed => "base64/chacha20-poly1305",
                TextCompression::Deflate => "base64/chacha20-poly1305/deflate",
            },
        }
    }
}

/// Encoding a message takes three steps in this order: the message is compressed
/// (left as it is, or DEFLATE), the compressed bytes `compressed` are encrypted
/// with the secret and the message nonce (left as they are, AES-256-GCM, or
/// ChaCha20-Poly1305), and the encrypted bytes are written as base64 text.
pub proof fn lemma_message_encoding_steps(
    e: MessageEncoding,
    secret: Seq<u8>,
    message: Seq<u8>,
    compressed: Seq<u8>,
)
    ensures
        ((e.compression == TextCompression::Uncompressed && compressed == message) || (e.compression
            == TextCompression::Deflate && deflate_compressed(message) == Some(compressed))) ==> {
            &&& e.encryption == TextEncryption::Unencrypted ==> message_encoded(e, secret, message)
                == Some(base64_encoded(compressed))
            &&& e.encryption == TextEncryption::Aes256Gcm ==> (match aes256_gcm_sealed(
                secret,
                message_nonce(),
                compressed,
            ) {
                Some(x) => message_encoded(e, secret, message) == Some(base64_encoded(x)),
                None => message_encoded(e, secret, message) is None,
            })
            &&& e.encryption == TextEncryption::ChaCha20Poly1305 ==> (message_encoded(
                e,
                secret,
                message,
            ) is Some ==> {
                &&& compressed.len() <= CHACHA_MAX_PLAINTEXT
                &&& chacha20_poly1305_sealed(secret, message_nonce(), compressed) matches Some(x)
                    && x.len() == compressed.len() + CHACHA_TAG_LEN && message_encoded(e, secret, message)
                    == Some(base64_encoded(x))
            })
        },
{
}

/// The six names of message encodings differ from one another.
proof fn lemma_encoding_names_distinct()
    ensures
        "base64/plain"@ != "base64/deflate"@,
        "base64/plain"@ != "base64/aes256-gcm"@,
        "base64/plain"@ != "base64/chacha20-poly1305"@,
        "base64/plain"@ != "base64/aes256-gcm/deflate"@,
        "base64/plain"@ != "base64/chacha20-poly1305/deflate"@,
        "base64/deflate"@ != "base64/aes256-gcm"@,
        "base64/deflate"@ != "base64/chacha20-poly1305"@,
        "base64/deflate"@ != "base64/aes256-gcm/deflate"@,
        "base64/deflate"@ != "base64/chacha20-poly1305/deflate"@,
        "base64/aes256-gcm"@ != "base64/chacha20-poly1305"@,
        "base64/aes256-gcm"@ != "base64/aes256-gcm/deflate"@,
        "base64/aes256-gcm"@ != "base64/chacha20-poly1305/deflate"@,
        "base64/chacha20-poly1305"@ != "base64/aes256-gcm/deflate"@,
        "base64/chacha20-poly1305"@ != "base64/chacha20-poly1305/deflate"@,
        "base64/aes256-gcm/deflate"@ != "base64/chacha20-poly1305/deflate"@,
{
    reveal_strlit("base64/plain");
    reveal_strlit("base64/deflate");
    reveal_strlit("base64/aes256-gcm");
    reveal_strlit("base64/chacha20-poly1305");
    reveal_strlit("base64/aes256-gcm/deflate");
    reveal_strlit("base64/chacha20-poly1305/deflate");
    assert("base64/plain"@.len() != "base64/deflate"@.len());
    assert("base64/plain"@.len() != "base64/aes256-gcm"@.len());
    assert("base64/plain"@.len() != "base64/chacha20-poly1305"@.len());
    assert("base64/plain"@.len() != "base64/aes256-gcm/deflate"@.len());
    assert("base64/plain"@.len() != "base64/chacha20-poly1305/deflate"@.len());
    assert("base64/deflate"@.len() != "base64/aes256-gcm"@.len());
    assert("base64/deflate"@.len() != "base64/chacha20-poly1305"@.len());
    assert("base64/deflate"@.len() != "base64/aes256-gcm/deflate"@.len());
    assert("base64/deflate"@.len() != "base64/chacha20-poly1305/deflate"@.len());
    assert("base64/aes256-gcm"@.len() != "base64/chacha20-poly1305"@.len());
    assert("base64/aes256-gcm"@.len() != "base64/aes256-gcm/deflate"@.len());
    assert("base64/aes256-gcm"@.len() != "base64/chacha20-poly1305/deflate"@.len());
    assert("base64/chacha20-poly1305"@.len() != "base64/aes256-gcm/deflate"@.len());
    assert("base64/chacha20-poly1305"@.len() != "base64/chacha20-poly1305/deflate"@.len());
    assert("base64/aes256-gcm/deflate"@.len() != "base64/chacha20-poly1305/deflate"@.len());
}

/// Each name of a message encoding says its parts: `base64/plain` is neither
/// encrypted nor compressed, `base64/deflate` is compressed with DEFLATE,
/// `base64/aes256-gcm` and `base64/chacha20-poly1305` are encrypted with that
/// algorithm, and a `/deflate` after them adds DEFLATE compression. An encoding
/// has a name exactly for its parts, and each name reads as those parts.
pub proof fn lemma_message_encoding_names(e: MessageEncoding)
    ensures
        (message_encoding_name(e) == "base64/plain"@) <==> (e.encryption == TextEncryption::Unencrypted && e.compression == TextCompression::Uncompressed),
        (message_encoding_name(e) == "base64/deflate"@) <==> (e.encryption == TextEncryption::Unencrypted && e.compression == TextCompression::Deflate),
        (message_encoding_name(e) == "base64/aes256-gcm"@) <==> (e.encryption == TextEncryption::Aes256Gcm && e.compression == TextCompression::Uncompressed),
        (message_encoding_name(e) == "base64/chacha20-poly1305"@) <==> (e.encryption == TextEncryption::ChaCha20Poly1305 && e.compression == TextCompression::Uncompressed),
        (message_encoding_name(e) == "base64/aes256-gcm/deflate"@) <==> (e.encryption == TextEncryption::Aes256Gcm && e.compression == TextCompression::Deflate),
        (message_encoding_name(e) == "base64/chacha20-poly1305/deflate"@) <==> (e.encryption == TextEncryption::ChaCha20Poly1305 && e.compression == TextCompression::Deflate),
        message_encoding_of_name("base64/plain"@) == Some(
            MessageEncoding { encoding: TextEncoding::Base64, encryption: TextEncryption::Unencrypted, compression: TextCompression::Uncompressed },
        ),
        message_encoding_of_name("base64/deflate"@) == Some(
            MessageEncoding { encoding: TextEncoding::Base64, encryption: TextEncryption::Unencrypted, compression: TextCompression::Deflate },
        ),
        message_encoding_of_name("base64/aes256-gcm"@) == Some(
            MessageEncoding { encoding: TextEncoding::Base64, encryption: TextEncryption::Aes256Gcm, compression: TextCompression::Uncompressed },
        ),
        message_encoding_of_name("base64/chacha20-poly1305"@) == Some(
            MessageEncoding { encoding: TextEncoding::Base64, encryption: TextEncryption::ChaCha20Poly1305, compression: TextCompression::Uncompressed },
        ),
        message_encoding_of_name("base64/aes256-gcm/deflate"@) == Some(
            MessageEncoding { encoding: TextEncoding::Base64, encryption: TextEncryption::Aes256Gcm, compression: TextCompression::Deflate },
        ),
        message_encoding_of_name("base64/chacha20-poly1305/deflate"@) == Some(
            MessageEncoding { encoding: TextEncoding::Base64, encryption: TextEncryption::ChaCha20Poly1305, compression: TextCompression::Deflate },
        ),
{
    lemma_encoding_names_distinct();
    lemma_message_encoding_name_roundtrip(e);
}

/// Reading the name of a message encoding gives the message encoding back.
pub proof fn lemma_message_encoding_name_roundtrip(e: MessageEncoding)
    ensures
        message_encoding_of_name(message_encoding_name(e)) == Some(e),
{
    reveal_strlit("base64/plain");
    reveal_strlit("base64/deflate");
    reveal_strlit("base64/aes256-gcm");
    reveal_strlit("base64/chacha20-poly1305");
    reveal_strlit("base64/aes256-gcm/deflate");
    reveal_strlit("base64/chacha20-poly1305/deflate");
    assert("base64/plain"@.len() != "base64/deflate"@.len());
    assert("base64/plain"@.len() != "base64/aes256-gcm"@.len());
    assert("base64/plain"@.len() != "base64/chacha20-poly1305"@.len());
    assert("base64/plain"@.len() != "base64/aes256-gcm/deflate"@.len());
    assert("base64/plain"@.len() != "base64/chacha20-poly1305/deflate"@.len());
    assert("base64/deflate"@.len() != "base64/aes256-gcm"@.len());
    assert("base64/deflate"@.len() != "base64/chacha20-poly1305"@.len());
    assert("base64/deflate"@.len() != "base64/aes256-gcm/deflate"@.len());
    assert("base64/deflate"@.len() != "base64/chacha20-poly1305/deflate"@.len());
    assert("base64/aes256-gcm"@.len() != "base64/chacha20-poly1305"@.len());
    assert("base64/aes256-gcm"@.len() != "base64/aes256-gcm/deflate"@.len());
    assert("base64/aes256-gcm"@.len() != "base64/chacha20-poly1305/deflate"@.len());
    assert("base64/chacha20-poly1305"@.len() != "base64/aes256-gcm/deflate"@.len());
    assert("base64/chacha20-poly1305"@.len() != "base64/chacha20-poly1305/deflate"@.len());
    assert("base64/aes256-gcm/deflate"@.len() != "base64/chacha20-poly1305/deflate"@.len());
}

} // verus!
