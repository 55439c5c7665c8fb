//! Byte-compression facade used by the storage layer: `encode`/`decode` over
//! the named codecs `"zlib"`, `"gzip"` and `"deflate"`. An unrecognised codec
//! name yields a typed error; nothing here terminates the process. The actual
//! compression is done by the `flate2` crate behind trusted wrappers whose
//! contracts state exactly the round-trip the crate documents.

use vstd::prelude::*;
use crate::text::str_eq;
use std::io::Read;
use std::io::Write;

verus! {

/// Error of the compression facade.
#[derive(Debug, PartialEq, Eq)]
pub enum CodecError {
    /// The codec name is none of `"zlib"`, `"gzip"`, `"deflate"`.
    UnsupportedCodec,
    /// The codec is supported but the bytes are not a stream it produced.
    CorruptData,
}

/// What the zlib encoder of `flate2` (default level) produces for a byte
/// sequence; the output depends on the input alone.
pub uninterp spec fn zlib_enc(data: Seq<u8>) -> Seq<u8>;

/// What the gzip encoder of `flate2` (default level, zero timestamp, fixed
/// operating-system byte) produces; the output depends on the input alone.
pub uninterp spec fn gzip_enc(data: Seq<u8>) -> Seq<u8>;

/// What the raw-deflate encoder of `flate2` (default level) produces; the
/// output depends on the input alone.
pub uninterp spec fn deflate_enc(data: Seq<u8>) -> Seq<u8>;

/// What the zlib decoder of `flate2` returns for a byte sequence: the
/// decoded bytes, or `None` where it rejects the stream; the outcome
/// depends on the input bytes alone.
pub uninterp spec fn zlib_dec(data: Seq<u8>) -> Option<Seq<u8>>;

/// What the gzip decoder of `flate2` returns; a function of the input
/// bytes alone.
pub uninterp spec fn gzip_dec(data: Seq<u8>) -> Option<Seq<u8>>;

/// What the raw-deflate decoder of `flate2` returns; a function of the
/// input bytes alone.
pub uninterp spec fn deflate_dec(data: Seq<u8>) -> Option<Seq<u8>>;

/// The codec names this facade accepts.
pub open spec fn supported_codec(name: Seq<char>) -> bool {
    name == "zlib"@ || name == "gzip"@ || name == "deflate"@
}

/// The decoding a supported codec name selects.
pub open spec fn decoded(name: Seq<char>, data: Seq<u8>) -> Option<Seq<u8>>
    recommends
        supported_codec(name),
{
    if name == "zlib"@ {
        zlib_dec(data)
    } else if name == "gzip"@ {
        gzip_dec(data)
    } else {
        deflate_dec(data)
    }
}

/// The encoding a supported codec name selects.
pub open spec fn encoded(name: Seq<char>, data: Seq<u8>) -> Seq<u8>
    recommends
        supported_codec(name),
{
    if name == "zlib"@ {
        zlib_enc(data)
    } else if name == "gzip"@ {
        gzip_enc(data)
    } else {
        deflate_enc(data)
    }
}

/// Relies on `flate2::write::ZlibEncoder`: compressing into a `Vec<u8>` sink
/// never fails, and the output is a function of the input bytes alone.
#[verifier::external_body]
fn zlib_compress(data: &[u8]) -> (r: Vec<u8>)
    ensures
        r@ == zlib_enc(data@),
{
    let mut enc = flate2::write::ZlibEncoder::new(Vec::new(), flate2::Compression::default());
    enc.write_all(data).expect("writing to a Vec sink cannot fail");
    enc.finish().expect("finishing into a Vec sink cannot fail")
}

/// Relies on `flate2::write::GzEncoder` with the default header (zero
/// timestamp, fixed operating-system byte): the output is a function of the
/// input bytes alone.
#[verifier::external_body]
fn gzip_compress(data: &[u8]) -> (r: Vec<u8>)
    ensures
        r@ == gzip_enc(data@),
{
    let mut enc = flate2::write::GzEncoder::new(Vec::new(), flate2::Compression::default());
    enc.write_all(data).expect("writing to a Vec sink cannot fail");
    enc.finish().expect("finishing into a Vec sink cannot fail")
}

/// Relies on `flate2::write::DeflateEncoder`: the output is a function of the
/// input bytes alone.
#[verifier::external_body]
fn deflate_compress(data: &[u8]) -> (r: Vec<u8>)
    ensures
        r@ == deflate_enc(data@),
{
    let mut enc = flate2::write::DeflateEncoder::new(Vec::new(), flate2::Compression::default());
    enc.write_all(data).expect("writing to a Vec sink cannot fail");
    enc.finish().expect("finishing into a Vec sink cannot fail")
}

/// Relies on `flate2::read::ZlibDecoder`: decoding inverts `ZlibEncoder`
/// (zlib compression is lossless), so on an encoder output it returns the
/// original bytes; on other inputs it may fail, which is mapped to `None`.
#[verifier::external_body]
fn zlib_decompress(data: &[u8]) -> (r: Option<Vec<u8>>)
    ensures
        r is Some <==> zlib_dec(data@) is Some,
        r matches Some(v) ==> zlib_dec(data@) == Some(v@),
        forall|b: Seq<u8>| #[trigger] zlib_enc(b) == data@ ==> r is Some && r->0@ == b,
{
    let mut out = Vec::new();
    let mut dec = flate2::read::ZlibDecoder::new(data);
    match dec.read_to_end(&mut out) {
        Ok(_) => Some(out),
        Err(_) => None,
    }
}

/// Relies on `flate2::read::GzDecoder`: decoding inverts `GzEncoder`.
#[verifier::external_body]
fn gzip_decompress(data: &[u8]) -> (r: Option<Vec<u8>>)
    ensures
        r is Some <==> gzip_dec(data@) is Some,
        r matches Some(v) ==> gzip_dec(data@) == Some(v@),
        forall|b: Seq<u8>| #[trigger] gzip_enc(b) == data@ ==> r is Some && r->0@ == b,
{
    let mut out = Vec::new();
    let mut dec = flate2::read::GzDecoder::new(data);
    match dec.read_to_end(&mut out) {
        Ok(_) => Some(out),
        Err(_) => None,
    }
}

/// Relies on `flate2::read::DeflateDecoder`: decoding inverts
/// `DeflateEncoder`.
#[verifier::external_body]
fn deflate_decompress(data: &[u8]) -> (r: Option<Vec<u8>>)
    ensures
        r is Some <==> deflate_dec(data@) is Some,
        r matches Some(v) ==> deflate_dec(data@) == Some(v@),
        forall|b: Seq<u8>| #[trigger] deflate_enc(b) == data@ ==> r is Some && r->0@ == b,
{
    let mut out = Vec::new();
    let mut dec = flate2::read::DeflateDecoder::new(data);
    match dec.read_to_end(&mut out) {
        Ok(_) => Some(out),
        Err(_) => None,
    }
}

/// Compresses `data` with the named codec. Succeeds exactly on the supported
/// codec names and then returns that codec's encoding of the input.
pub fn compress_data(data: &[u8], compression_type: &str) -> (r: Result<Vec<u8>, CodecError>)
    ensures
        r is Ok <==> supported_codec(compression_type@),
        r matches Ok(v) ==> v@ == encoded(compression_type@, data@),
        r matches Err(e) ==> e == CodecError::UnsupportedCodec,
{
    if str_eq(compression_type, "zlib") {
        Ok(zlib_compress(data))
    } else if str_eq(compression_type, "gzip") {
        Ok(gzip_compress(data))
    } else if str_eq(compression_type, "deflate") {
        Ok(deflate_compress(data))
    } else {
        Err(CodecError::UnsupportedCodec)
    }
}

/// Decompresses `data` with the named codec. An unsupported codec name is
/// one typed error, bytes the decoder rejects are another; the result is
/// exactly what the named decoder yields, and whenever the input is an
/// encoding the codec produced, the original bytes come back.
pub fn decompress_data(data: &[u8], compression_type: &str) -> (r: Result<Vec<u8>, CodecError>)
    ensures
        (r matches Err(e) && e == CodecError::UnsupportedCodec) <==> !supported_codec(
            compression_type@,
        ),
        supported_codec(compression_type@) ==> forall|b: Seq<u8>|
            #[trigger] encoded(compression_type@, b) == data@ ==> (r matches Ok(v) && v@ == b),
        supported_codec(compression_type@) && r is Err ==> (r matches Err(e) && e
            == CodecError::CorruptData) && forall|b: Seq<u8>|
            #[trigger] encoded(compression_type@, b) != data@,
        supported_codec(compression_type@) ==> (match decoded(compression_type@, data@) {
            Option::Some(b) => r matches Ok(v) && v@ == b,
            Option::None => r is Err,
        }),
{
    if str_eq(compression_type, "zlib") {
        match zlib_decompress(data) {
            Some(v) => Ok(v),
            None => Err(CodecError::CorruptData),
        }
    } else if str_eq(compression_type, "gzip") {
        match gzip_decompress(data) {
            Some(v) => Ok(v),
            None => Err(CodecError::CorruptData),
        }
    } else if str_eq(compression_type, "deflate") {
        match deflate_decompress(data) {
            Some(v) => Ok(v),
            None => Err(CodecError::CorruptData),
        }
    } else {
        Err(CodecError::UnsupportedCodec)
    }
}

/// Stores a compressed copy of `data`: the buffer is copied directly, with no
/// re-aliasing of raw pointers. The result is the named codec's encoding.
pub fn store_data_in_memory(data: &[u8], compression_type: &str) -> (r: Result<
    Vec<u8>,
    CodecError,
>)
    ensures
        r is Ok <==> supported_codec(compression_type@),
        r matches Ok(v) ==> v@ == encoded(compression_type@, data@),
        r matches Err(e) ==> e == CodecError::UnsupportedCodec,
{
    compress_data(data, compression_type)
}

/// Retrieves data stored by `store_data_in_memory`: decompresses the buffer
/// with the named codec.
pub fn retrieve_data_from_memory(data: &[u8], compression_type: &str) -> (r: Result<
    Vec<u8>,
    CodecError,
>)
    ensures
        (r matches Err(e) && e == CodecError::UnsupportedCodec) <==> !supported_codec(
            compression_type@,
        ),
        supported_codec(compression_type@) ==> forall|b: Seq<u8>|
            #[trigger] encoded(compression_type@, b) == data@ ==> (r matches Ok(v) && v@ == b),
        supported_codec(compression_type@) && r is Err ==> (r matches Err(e) && e
            == CodecError::CorruptData) && forall|b: Seq<u8>|
            #[trigger] encoded(compression_type@, b) != data@,
        supported_codec(compression_type@) ==> (match decoded(compression_type@, data@) {
            Option::Some(b) => r matches Ok(v) && v@ == b,
            Option::None => r is Err,
        }),
{
    decompress_data(data, compression_type)
}

/// Entry point of the compression side: encodes a tabular buffer with the
/// named codec and hands back the bytes to keep in memory.
pub fn compressor(data: &[u8], compression_type: &str) -> (r: Result<Vec<u8>, CodecError>)
    ensures
        r is Ok <==> supported_codec(compression_type@),
        r matches Ok(v) ==> v@ == encoded(compression_type@, data@),
        r matches Err(e) ==> e == CodecError::UnsupportedCodec,
{
    store_data_in_memory(data, compression_type)
}

/// Entry point of the decompression side: decodes bytes kept in memory back
/// into the tabular buffer they were made from.
pub fn decompressor(data: &[u8], compression_type: &str) -> (r: Result<Vec<u8>, CodecError>)
    ensures
        (r matches Err(e) && e == CodecError::UnsupportedCodec) <==> !supported_codec(
            compression_type@,
        ),
        supported_codec(compression_type@) ==> forall|b: Seq<u8>|
            #[trigger] encoded(compression_type@, b) == data@ ==> (r matches Ok(v) && v@ == b),
        supported_codec(compression_type@) && r is Err ==> (r matches Err(e) && e
            == CodecError::CorruptData) && forall|b: Seq<u8>|
            #[trigger] encoded(compression_type@, b) != data@,
        supported_codec(compression_type@) ==> (match decoded(compression_type@, data@) {
            Option::Some(b) => r matches Ok(v) && v@ == b,
            Option::None => r is Err,
        }),
{
    retrieve_data_from_memory(data, compression_type)
}

/// The codec round trip: decoding what was just encoded with the same
/// supported codec gives the original buffer back, for every byte buffer,
/// the empty one included; an unsupported codec is reported, not fatal.
pub fn codec_round_trip(data: &[u8], compression_type: &str) -> (r: Result<Vec<u8>, CodecError>)
    ensures
        r is Ok <==> supported_codec(compression_type@),
        r matches Ok(v) ==> v@ == data@,
        r matches Err(e) ==> e == CodecError::UnsupportedCodec,
{
    let stored = compressor(data, compression_type)?;
    let restored = decompressor(stored.as_slice(), compression_type);
    match restored {
        Ok(v) => Ok(v),
        Err(e) => {
            proof {
                assert(encoded(compression_type@, data@) == stored@);
                assert(false);
            }
            Err(e)
        },
    }
}

} // verus!
