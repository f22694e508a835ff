//! Encoding of a message: text encoding, encryption and compression.

use vstd::prelude::*;

use super::messages_error::MessagesError;
use crate::crypto::CryptographyError;
use crate::crypto::formats::{
    Encoding, Encryption, Compression, encoding_name, encryption_name, compression_name,
    encoding_of_name, encryption_of_name, compression_of_name,
};
use crate::text::{
    chars_of, chars_match, owned, split_chars, split_slash, slash_free, lemma_split_single,
    lemma_split_join,
};

verus! {

/// Encoding of a message.
#[derive(Default, Debug, Clone, Copy, PartialEq, Eq, Hash, Structural)]
pub struct MessageEncoding {
    pub encoding: Encoding,
    pub encryption: Encryption,
    pub compression: Compression,
}

/// The text of a message encoding: the names joined by slashes, leaving out
/// the encryption when unencrypted and the compression when uncompressed.
pub open spec fn message_encoding_text(e: MessageEncoding) -> Seq<char> {
    let enc = encoding_name(e.encoding);
    let slash = seq!['/'];
    match (e.encryption, e.compression) {
        (Encryption::Unencrypted, Compression::Uncompressed) => enc,
        (encryption, Compression::Uncompressed) => enc + slash + encryption_name(encryption),
        (Encryption::Unencrypted, compression) => enc + slash + compression_name(compression),
        (encryption, compression) => enc + slash + encryption_name(encryption) + slash
            + compression_name(compression),
    }
}

/// The message encoding that a text stands for. The error is `None` where the
/// text does not have one to three parts, and the refused algorithm otherwise.
pub open spec fn message_encoding_of_text(text: Seq<char>) -> Result<
    MessageEncoding,
    Option<CryptographyError>,
> {
    let parts = split_slash(text);
    if parts.len() == 1 {
        match encoding_of_name(parts[0]) {
            Ok(encoding) => Ok(
                MessageEncoding {
                    encoding,
                    encryption: Encryption::Unencrypted,
                    compression: Compression::Uncompressed,
                },
            ),
            Err(e) => Err(Some(e)),
        }
    } else if parts.len() == 2 {
        match encoding_of_name(parts[0]) {
            Ok(encoding) => match encryption_of_name(parts[1]) {
                Ok(encryption) => Ok(
                    MessageEncoding { encoding, encryption, compression: Compression::Uncompressed },
                ),
                Err(_) => match compression_of_name(parts[1]) {
                    Ok(compression) => Ok(
                        MessageEncoding { encoding, encryption: Encryption::Unencrypted, compression },
                    ),
                    Err(e) => Err(Some(e)),
                },
            },
            Err(e) => Err(Some(e)),
        }
    } else if parts.len() == 3 {
        match encoding_of_name(parts[0]) {
            Ok(encoding) => match encryption_of_name(parts[1]) {
                Ok(encryption) => match compression_of_name(parts[2]) {
                    Ok(compression) => Ok(MessageEncoding { encoding, encryption, compression }),
                    Err(e) => Err(Some(e)),
                },
                Err(e) => Err(Some(e)),
            },
            Err(e) => Err(Some(e)),
        }
    } else {
        Err(None)
    }
}

fn encoding_from_chars(name: &Vec<char>) -> (e: Result<Encoding, CryptographyError>)
    ensures
        e == encoding_of_name(name@),
{
    proof {
        reveal_strlit("base64");
        assert("base64"@ =~= encoding_name(Encoding::Base64));
    }
    if chars_match(name, "base64") {
        Ok(Encoding::Base64)
    } else {
        Err(CryptographyError::UnknownAlgorithm)
    }
}

fn encryption_from_chars(name: &Vec<char>) -> (e: Result<Encryption, CryptographyError>)
    ensures
        e == encryption_of_name(name@),
{
    proof {
        reveal_strlit("aes256-gcm");
        reveal_strlit("chacha20-poly1305");
        assert("aes256-gcm"@ =~= encryption_name(Encryption::Aes256Gcm));
        assert("chacha20-poly1305"@ =~= encryption_name(Encryption::ChaCha20Poly1305));
    }
    if chars_match(name, "aes256-gcm") {
        Ok(Encryption::Aes256Gcm)
    } else if chars_match(name, "chacha20-poly1305") {
        Ok(Encryption::ChaCha20Poly1305)
    } else {
        Err(CryptographyError::UnknownAlgorithm)
    }
}

fn compression_from_chars(name: &Vec<char>) -> (c: Result<Compression, CryptographyError>)
    ensures
        c == compression_of_name(name@),
{
    proof {
        reveal_strlit("deflate");
        reveal_strlit("brotli");
        assert("deflate"@ =~= compression_name(Compression::Deflate));
        assert("brotli"@ =~= compression_name(Compression::Brotli));
    }
    if chars_match(name, "deflate") {
        Ok(Compression::Deflate)
    } else if chars_match(name, "brotli") {
        Ok(Compression::Brotli)
    } else {
        Err(CryptographyError::UnknownAlgorithm)
    }
}

impl MessageEncoding {
    /// Combine a text encoding, an encryption and a compression.
    pub fn new(encoding: Encoding, encryption: Encryption, compression: Compression) -> (e: Self)
        ensures
            e == (MessageEncoding { encoding, encryption, compression }),
    {
        MessageEncoding { encoding, encryption, compression }
    }

    /// Read a message encoding from its text: `<encoding>`,
    /// `<encoding>/<encryption>`, `<encoding>/<compression>` or
    /// `<encoding>/<encryption>/<compression>`.
    pub fn from_str(text: &str) -> (e: Result<Self, MessagesError>)
        ensures
            e is Ok <==> message_encoding_of_text(text@) is Ok,
            e matches Ok(v) ==> message_encoding_of_text(text@) == Ok::<
                MessageEncoding,
                Option<CryptographyError>,
            >(v),
            message_encoding_of_text(text@) matches Err(Some(c)) ==> e == Err::<
                MessageEncoding,
                MessagesError,
            >(MessagesError::CryptographyError(c)),
            message_encoding_of_text(text@) matches Err(None) ==> (e matches Err(
                MessagesError::WrongMessageEncodingFormat(t),
            ) && t@ == text@),
    {
        let chars = chars_of(text);
        let parts = split_chars(&chars);
        if parts.len() == 1 {
            match encoding_from_chars(&parts[0]) {
                Ok(encoding) => Ok(
                    MessageEncoding {
                        encoding,
                        encryption: Encryption::Unencrypted,
                        compression: Compression::Uncompressed,
                    },
                ),
                Err(e) => Err(MessagesError::CryptographyError(e)),
            }
        } else if parts.len() == 2 {
            let encoding = match encoding_from_chars(&parts[0]) {
                Ok(encoding) => encoding,
                Err(e) => return Err(MessagesError::CryptographyError(e)),
            };
            match encryption_from_chars(&parts[1]) {
                Ok(encryption) => Ok(
                    MessageEncoding { encoding, encryption, compression: Compression::Uncompressed },
                ),
                Err(_) => match compression_from_chars(&parts[1]) {
                    Ok(compression) => Ok(
                        MessageEncoding {
                            encoding,
                            encryption: Encryption::Unencrypted,
                            compression,
                        },
                    ),
                    Err(e) => Err(MessagesError::CryptographyError(e)),
                },
            }
        } else if parts.len() == 3 {
            let encoding = match encoding_from_chars(&parts[0]) {
                Ok(encoding) => encoding,
                Err(e) => return Err(MessagesError::CryptographyError(e)),
            };
            let encryption = match encryption_from_chars(&parts[1]) {
                Ok(encryption) => encryption,
                Err(e) => return Err(MessagesError::CryptographyError(e)),
            };
            match compression_from_chars(&parts[2]) {
                Ok(compression) => Ok(MessageEncoding { encoding, encryption, compression }),
                Err(e) => Err(MessagesError::CryptographyError(e)),
            }
        } else {
            Err(MessagesError::WrongMessageEncodingFormat(owned(text)))
        }
    }

    /// The text of the message encoding.
    pub fn to_string(&self) -> (text: String)
        ensures
            text@ == message_encoding_text(*self),
    {
        let mut text = owned(self.encoding.as_str());
        match (self.encryption, self.compression) {
            (Encryption::Unencrypted, Compression::Uncompressed) => {},
            (encryption, Compression::Uncompressed) => {
                text.append("/");
                text.append(encryption.as_str());
            },
            (Encryption::Unencrypted, compression) => {
                text.append("/");
                text.append(compression.as_str());
            },
            (encryption, compression) => {
                text.append("/");
                text.append(encryption.as_str());
                text.append("/");
                text.append(compression.as_str());
            },
        }
        proof {
            reveal_strlit("/");
            assert("/"@ =~= seq!['/']);
        }
        text
    }
}

/// Reading the text of a message encoding gives the message encoding back.
pub proof fn lemma_message_encoding_text_roundtrip(e: MessageEncoding)
    ensures
        message_encoding_of_text(message_encoding_text(e)) == Ok::<
            MessageEncoding,
            Option<CryptographyError>,
        >(e),
{
    let enc = encoding_name(e.encoding);
    let encr = encryption_name(e.encryption);
    let comp = compression_name(e.compression);
    assert(slash_free(enc));
    assert(slash_free(encr));
    assert(slash_free(comp));
    lemma_split_single(enc);
    let slash = seq!['/'];
    match (e.encryption, e.compression) {
        (Encryption::Unencrypted, Compression::Uncompressed) => {},
        (_, Compression::Uncompressed) => {
            lemma_split_join(enc, encr);
        },
        (Encryption::Unencrypted, _) => {
            lemma_split_join(enc, comp);
            assert(encryption_of_name(comp) is Err);
        },
        (_, _) => {
            lemma_split_join(enc, encr);
            lemma_split_join(enc + slash + encr, comp);
            assert(split_slash(enc + slash + encr + slash + comp) =~= seq![enc, encr, comp]);
        },
    }
}

} // verus!
