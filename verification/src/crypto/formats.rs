//! Names of the text encodings, encryption and compression algorithms
//! that a message encoding combines.

use vstd::prelude::*;

use super::CryptographyError;
use crate::text::text_eq;

verus! {

/// Algorithm that turns bytes into text.
#[derive(Debug, Clone, Copy, PartialEq, Eq, Hash, Structural, Default)]
pub enum Encoding {
    #[default]
    Base64,
}

/// Algorithm that encrypts bytes with a shared secret.
#[derive(Debug, Clone, Copy, PartialEq, Eq, Hash, Structural, Default)]
pub enum Encryption {
    #[default]
    Unencrypted,
    Aes256Gcm,
    ChaCha20Poly1305,
}

/// Algorithm that compresses bytes.
#[derive(Debug, Clone, Copy, PartialEq, Eq, Hash, Structural, Default)]
pub enum Compression {
    #[default]
    Uncompressed,
    Deflate,
    Brotli,
}

pub open spec fn encoding_name(e: Encoding) -> Seq<char> {
    match e {
        Encoding::Base64 => seq!['b', 'a', 's', 'e', '6', '4'],
    }
}

/// The name of an encryption algorithm (an unencrypted text has none).
pub open spec fn encryption_name(e: Encryption) -> Seq<char> {
    match e {
        Encryption::Unencrypted => Seq::empty(),
        Encryption::Aes256Gcm => seq!['a', 'e', 's', '2', '5', '6', '-', 'g', 'c', 'm'],
        Encryption::ChaCha20Poly1305 => seq![
            'c', 'h', 'a', 'c', 'h', 'a', '2', '0', '-', 'p', 'o', 'l', 'y', '1', '3', '0', '5',
        ],
    }
}

/// The name of a compression algorithm (an uncompressed text has none).
pub open spec fn compression_name(c: Compression) -> Seq<char> {
    match c {
        Compression::Uncompressed => Seq::empty(),
        Compression::Deflate => seq!['d', 'e', 'f', 'l', 'a', 't', 'e'],
        Compression::Brotli => seq!['b', 'r', 'o', 't', 'l', 'i'],
    }
}

pub open spec fn encoding_of_name(name: Seq<char>) -> Result<Encoding, CryptographyError> {
    if name == encoding_name(Encoding::Base64) {
        Ok(Encoding::Base64)
    } else {
        Err(CryptographyError::UnknownAlgorithm)
    }
}

pub open spec fn encryption_of_name(name: Seq<char>) -> Result<Encryption, CryptographyError> {
    if name == encryption_name(Encryption::Aes256Gcm) {
        Ok(Encryption::Aes256Gcm)
    } else if name == encryption_name(Encryption::ChaCha20Poly1305) {
        Ok(Encryption::ChaCha20Poly1305)
    } else {
        Err(CryptographyError::UnknownAlgorithm)
    }
}

pub open spec fn compression_of_name(name: Seq<char>) -> Result<Compression, CryptographyError> {
    if name == compression_name(Compression::Deflate) {
        Ok(Compression::Deflate)
    } else if name == compression_name(Compression::Brotli) {
        Ok(Compression::Brotli)
    } else {
        Err(CryptographyError::UnknownAlgorithm)
    }
}

/// Each algorithm is read from its own name, and its name is that text:
/// `base64`; `aes256-gcm` and `chacha20-poly1305`; `deflate` and `brotli`.
/// Any other text names no algorithm.
pub proof fn lemma_algorithm_names(name: Seq<char>)
    ensures
        encoding_name(Encoding::Base64) == "base64"@,
        encryption_name(Encryption::Aes256Gcm) == "aes256-gcm"@,
        encryption_name(Encryption::ChaCha20Poly1305) == "chacha20-poly1305"@,
        compression_name(Compression::Deflate) == "deflate"@,
        compression_name(Compression::Brotli) == "brotli"@,
        encoding_of_name(name) is Ok <==> name == "base64"@,
        encryption_of_name(name) == Ok::<Encryption, CryptographyError>(Encryption::Aes256Gcm)
            <==> name == "aes256-gcm"@,
        encryption_of_name(name) == Ok::<Encryption, CryptographyError>(Encryption::ChaCha20Poly1305)
            <==> name == "chacha20-poly1305"@,
        encryption_of_name(name) is Ok ==> name == "aes256-gcm"@ || name == "chacha20-poly1305"@,
        compression_of_name(name) == Ok::<Compression, CryptographyError>(Compression::Deflate)
            <==> name == "deflate"@,
        compression_of_name(name) == Ok::<Compression, CryptographyError>(Compression::Brotli)
            <==> name == "brotli"@,
        compression_of_name(name) is Ok ==> name == "deflate"@ || name == "brotli"@,
{
    reveal_strlit("base64");
    reveal_strlit("aes256-gcm");
    reveal_strlit("chacha20-poly1305");
    reveal_strlit("deflate");
    reveal_strlit("brotli");
    assert("base64"@ =~= encoding_name(Encoding::Base64));
    assert("aes256-gcm"@ =~= encryption_name(Encryption::Aes256Gcm));
    assert("chacha20-poly1305"@ =~= encryption_name(Encryption::ChaCha20Poly1305));
    assert("deflate"@ =~= compression_name(Compression::Deflate));
    assert("brotli"@ =~= compression_name(Compression::Brotli));
}

impl Encoding {
    /// Read an encoding from its name.
    pub fn from_str(name: &str) -> (e: Result<Self, CryptographyError>)
        ensures
            e == encoding_of_name(name@),
            name@ == "base64"@ ==> e == Ok::<Encoding, CryptographyError>(Encoding::Base64),
    {
        proof {
            reveal_strlit("base64");
            assert("base64"@ =~= encoding_name(Encoding::Base64));
        }
        if text_eq(name, "base64") {
            Ok(Encoding::Base64)
        } else {
            Err(CryptographyError::UnknownAlgorithm)
        }
    }

    /// The name of the encoding.
    pub fn as_str(&self) -> (name: &'static str)
        ensures
            name@ == encoding_name(*self),
            name@ == "base64"@,
    {
        proof {
            reveal_strlit("base64");
            assert("base64"@ =~= encoding_name(Encoding::Base64));
        }
        match self {
            Encoding::Base64 => "base64",
        }
    }
}

impl Encryption {
    /// Read an encryption algorithm from its name.
    pub fn from_str(name: &str) -> (e: Result<Self, CryptographyError>)
        ensures
            e == encryption_of_name(name@),
            name@ == "aes256-gcm"@ ==> e == Ok::<Encryption, CryptographyError>(Encryption::Aes256Gcm),
            name@ == "chacha20-poly1305"@ ==> e == Ok::<Encryption, CryptographyError>(
                Encryption::ChaCha20Poly1305,
            ),
    {
        proof {
            reveal_strlit("aes256-gcm");
            reveal_strlit("chacha20-poly1305");
            assert("aes256-gcm"@ =~= encryption_name(Encryption::Aes256Gcm));
            assert("chacha20-poly1305"@ =~= encryption_name(Encryption::ChaCha20Poly1305));
        }
        if text_eq(name, "aes256-gcm") {
            Ok(Encryption::Aes256Gcm)
        } else if text_eq(name, "chacha20-poly1305") {
            Ok(Encryption::ChaCha20Poly1305)
        } else {
            Err(CryptographyError::UnknownAlgorithm)
        }
    }

    /// The name of the encryption algorithm (empty when unencrypted).
    pub fn as_str(&self) -> (name: &'static str)
        ensures
            name@ == encryption_name(*self),
            *self == Encryption::Unencrypted ==> name@ == ""@,
            *self == Encryption::Aes256Gcm ==> name@ == "aes256-gcm"@,
            *self == Encryption::ChaCha20Poly1305 ==> name@ == "chacha20-poly1305"@,
    {
        proof {
            reveal_strlit("");
            reveal_strlit("aes256-gcm");
            reveal_strlit("chacha20-poly1305");
            assert(""@ =~= encryption_name(Encryption::Unencrypted));
            assert("aes256-gcm"@ =~= encryption_name(Encryption::Aes256Gcm));
            assert("chacha20-poly1305"@ =~= encryption_name(Encryption::ChaCha20Poly1305));
        }
        match self {
            Encryption::Unencrypted => "",
            Encryption::Aes256Gcm => "aes256-gcm",
            Encryption::ChaCha20Poly1305 => "chacha20-poly1305",
        }
    }
}

impl Compression {
    /// Read a compression algorithm from its name.
    pub fn from_str(name: &str) -> (c: Result<Self, CryptographyError>)
        ensures
            c == compression_of_name(name@),
            name@ == "deflate"@ ==> c == Ok::<Compression, CryptographyError>(Compression::Deflate),
            name@ == "brotli"@ ==> c == Ok::<Compression, CryptographyError>(Compression::Brotli),
    {
        proof {
            reveal_strlit("deflate");
            reveal_strlit("brotli");
            assert("deflate"@ =~= compression_name(Compression::Deflate));
            assert("brotli"@ =~= compression_name(Compression::Brotli));
        }
        if text_eq(name, "deflate") {
            Ok(Compression::Deflate)
        } else if text_eq(name, "brotli") {
            Ok(Compression::Brotli)
        } else {
            Err(CryptographyError::UnknownAlgorithm)
        }
    }

    /// The name of the compression algorithm (empty when uncompressed).
    pub fn as_str(&self) -> (name: &'static str)
        ensures
            name@ == compression_name(*self),
            *self == Compression::Uncompressed ==> name@ == ""@,
            *self == Compression::Deflate ==> name@ == "deflate"@,
            *self == Compression::Brotli ==> name@ == "brotli"@,
    {
        proof {
            reveal_strlit("");
            reveal_strlit("deflate");
            reveal_strlit("brotli");
            assert(""@ =~= compression_name(Compression::Uncompressed));
            assert("deflate"@ =~= compression_name(Compression::Deflate));
            assert("brotli"@ =~= compression_name(Compression::Brotli));
        }
        match self {
            Compression::Uncompressed => "",
            Compression::Deflate => "deflate",
            Compression::Brotli => "brotli",
        }
    }
}

} // verus!
