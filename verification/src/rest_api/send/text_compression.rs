//! Compression of bytes.

use vstd::prelude::*;

use std::io::Write;

use super::SendError;
use crate::crypto::copy_bytes;

verus! {

#[verifier::external_type_specification]
#[verifier::external_body]
pub struct ExIoError(std::io::Error);

/// What a DEFLATE encoder of the `flate2` crate, at its default level, writes for
/// some bytes (`None` where it fails).
pub uninterp spec fn deflate_compressed(data: Seq<u8>) -> Option<Seq<u8>>;

/// What a DEFLATE decoder of the `flate2` crate writes for a stream (`None` where it fails).
pub uninterp spec fn deflate_inflated(data: Seq<u8>) -> Option<Seq<u8>>;

/// Calls `flate2::write::DeflateEncoder::new` over a vector with `flate2::Compression::default()`,
/// then `write_all` and `finish`. Trusted: it succeeds (the encoder only writes
/// into the vector, which does not fail), and the result is the named function
/// of the input.
#[verifier::external_body]
fn deflate(data: &[u8]) -> (compressed: Result<Vec<u8>, std::io::Error>)
    ensures
        compressed is Ok,
        compressed is Ok <==> deflate_compressed(data@) is Some,
        compressed matches Ok(c) ==> c@ == deflate_compressed(data@)->Some_0,
{
    let mut encoder = flate2::write::DeflateEncoder::new(
        Vec::with_capacity(data.len()),
        flate2::Compression::default(),
    );
    encoder.write_all(data)?;
    encoder.finish()
}

/// Calls `flate2::write::DeflateDecoder::new` over a vector, then `write_all` and
/// `finish`. Trusted: the result is the named function of the input, and decoding
/// what the encoder wrote gives the encoder's input back.
#[verifier::external_body]
fn inflate(data: &[u8]) -> (inflated: Result<Vec<u8>, std::io::Error>)
    ensures
        inflated is Ok <==> deflate_inflated(data@) is Some,
        inflated matches Ok(d) ==> d@ == deflate_inflated(data@)->Some_0,
        inflated matches Ok(d) ==> forall|source: Seq<u8>|
            deflate_compressed(source) == Some(data@) ==> d@ == source,
        inflated is Err ==> forall|source: Seq<u8>| deflate_compressed(source) != Some(data@),
{
    let mut decoder = flate2::write::DeflateDecoder::new(Vec::with_capacity(data.len()));
    decoder.write_all(data)?;
    decoder.finish()
}

/// Algorithm that compresses bytes.
#[derive(Default, Debug, Clone, Copy, PartialEq, Eq, Hash, Structural)]
pub enum TextCompression {
    #[default]
    Uncompressed,
    Deflate,
}

/// What a compression writes for some bytes (`None` where it fails).
pub open spec fn compressed_bytes(compression: TextCompression, data: Seq<u8>) -> Option<Seq<u8>> {
    match compression {
        TextCompression::Uncompressed => Some(data),
        TextCompression::Deflate => deflate_compressed(data),
    }
}

/// What a compression reads back from some bytes (`None` where it fails).
pub open spec fn decompressed_bytes(compression: TextCompression, data: Seq<u8>) -> Option<Seq<u8>> {
    match compression {
        TextCompression::Uncompressed => Some(data),
        TextCompression::Deflate => deflate_inflated(data),
    }
}

/// Each compression is the algorithm it names: none leaves the bytes as they
/// are, both ways; DEFLATE writes and reads what the `flate2` crate does.
pub proof fn lemma_compression_algorithms(data: Seq<u8>)
    ensures
        compressed_bytes(TextCompression::Uncompressed, data) == Some(data),
        decompressed_bytes(TextCompression::Uncompressed, data) == Some(data),
        compressed_bytes(TextCompression::Deflate, data) == deflate_compressed(data),
        decompressed_bytes(TextCompression::Deflate, data) == deflate_inflated(data),
{
}

impl TextCompression {
    /// Compress bytes; this always succeeds.
    pub fn compress(&self, data: &[u8]) -> (compressed: Result<Vec<u8>, SendError>)
        ensures
            compressed is Ok,
            compressed_bytes(*self, data@) is Some,
            compressed matches Ok(c) ==> c@ == compressed_bytes(*self, data@)->Some_0,
            *self == TextCompression::Uncompressed ==> (compressed matches Ok(c) && c@ == data@),
            *self == TextCompression::Deflate ==> (compressed matches Ok(c) && Some(c@)
                == deflate_compressed(data@)),
    {
        match self {
            TextCompression::Uncompressed => Ok(copy_bytes(data)),
            TextCompression::Deflate => match deflate(data) {
                Ok(c) => Ok(c),
                Err(_) => Err(SendError::TextCompressionFailed),
            },
        }
    }

    /// Decompress bytes; decompressing what `compress` wrote gives the bytes back.
    pub fn decompress(&self, data: &[u8]) -> (decompressed: Result<Vec<u8>, SendError>)
        ensures
            decompressed is Ok <==> decompressed_bytes(*self, data@) is Some,
            decompressed matches Ok(d) ==> d@ == decompressed_bytes(*self, data@)->Some_0,
            decompressed matches Err(e) ==> e == SendError::TextDecompressionFailed,
            forall|source: Seq<u8>|
                #[trigger] compressed_bytes(*self, source) == Some(data@) ==> (
                decompressed matches Ok(d) && d@ == source),
            *self == TextCompression::Uncompressed ==> (decompressed matches Ok(d) && d@ == data@),
            *self == TextCompression::Deflate ==> (decompressed is Ok <==> deflate_inflated(data@) is Some),
            *self == TextCompression::Deflate ==> (decompressed matches Ok(d) ==> Some(d@)
                == deflate_inflated(data@)),
    {
        match self {
            TextCompression::Uncompressed => Ok(copy_bytes(data)),
            TextCompression::Deflate => match inflate(data) {
                Ok(d) => Ok(d),
                Err(_) => Err(SendError::TextDecompressionFailed),
            },
        }
    }
}

} // verus!
