//! The calls that leave this library: the SHA-1 digest, the zlib compressor and
//! the ini parser. Nothing in this file is proved. Each contract is a claim
//! about code that lives elsewhere, and the rest of the library is proved on
//! top of these claims.

use vstd::prelude::*;
use std::io::Read;
use std::io::Write;
use sha::utils::Digest;
use sha::utils::DigestExt;

verus! {

/// The error type of `std::io`, carried through and never looked into.
#[verifier::external_type_specification]
#[verifier::external_body]
pub struct ExIoError(std::io::Error);

/// Whether `c` is one of `0`..`9` or `a`..`f`.
pub open spec fn is_lower_hex(c: char) -> bool {
    ('0' <= c && c <= '9') || ('a' <= c && c <= 'f')
}

/// The SHA-1 digest of `message`, written as hexadecimal digits.
pub uninterp spec fn sha1_hex(message: Seq<u8>) -> Seq<char>;

/// The bytes that the zlib encoder, at its fastest level, writes for `data`;
/// `None` where it reports an error.
pub uninterp spec fn zlib_stream(data: Seq<u8>) -> Option<Seq<u8>>;

/// What the zlib decoder reads out of `stream`; `None` where it gives up.
pub uninterp spec fn zlib_inflated(stream: Seq<u8>) -> Option<Seq<u8>>;

/// What the ini parser finds under `section` and `key` in `text`: `None` where
/// it refuses the text, `Some(None)` where the text has no value there.
pub uninterp spec fn ini_value(text: Seq<char>, section: Seq<char>, key: Seq<char>) -> Option<
    Option<Seq<char>>,
>;

/// Calls `sha::sha1::Sha1::default().digest(..).to_hex()`.
///
/// Claimed: the text depends on the message alone; it is forty characters
/// long, two for each of the digest's twenty bytes, and each is a digit or one
/// of `a` to `f`.
#[verifier::external_body]
pub(crate) fn sha1_digest_hex(message: &[u8]) -> (hex: String)
    ensures
        hex@ == sha1_hex(message@),
        hex@.len() == 40,
        forall|i: int| 0 <= i < 40 ==> is_lower_hex(#[trigger] hex@[i]),
{
    sha::sha1::Sha1::default().digest(message).to_hex()
}

/// Runs `data` through `flate2::write::ZlibEncoder` at `Compression::fast()`,
/// into a vector.
///
/// Claimed: whether the encoder reports an error, and what it writes where it
/// does not, depends on the data alone; and the decoder reads the data back
/// out of what it wrote.
#[verifier::external_body]
pub(crate) fn zlib_compress(data: &[u8]) -> (r: Result<Vec<u8>, std::io::Error>)
    ensures
        match r {
            Ok(stream) => zlib_stream(data@) == Some(stream@) && zlib_inflated(stream@) == Some(
                data@,
            ),
            Err(_) => zlib_stream(data@) is None,
        },
{
    let mut z = flate2::write::ZlibEncoder::new(Vec::new(), flate2::Compression::fast());
    z.write_all(data)?;
    z.finish()
}

/// Reads `stream` to its end through `flate2::bufread::ZlibDecoder`.
///
/// Claimed: whether the decoder fails, and what it reads where it does not,
/// depends on the stream alone.
#[verifier::external_body]
pub(crate) fn zlib_decompress(stream: &[u8]) -> (r: Result<Vec<u8>, std::io::Error>)
    ensures
        match r {
            Ok(data) => zlib_inflated(stream@) == Some(data@),
            Err(_) => zlib_inflated(stream@) is None,
        },
{
    let mut z = flate2::bufread::ZlibDecoder::new(stream);
    let mut data = Vec::new();
    z.read_to_end(&mut data)?;
    Ok(data)
}

/// Parses `text` with a fresh `configparser::ini::Ini` (`Ini::new`, then
/// `Ini::read`) and asks it for one value (`Ini::get`).
///
/// Claimed: the answer depends on the three texts alone. The parser's message
/// is handed back where it refuses the text.
#[verifier::external_body]
pub(crate) fn ini_lookup(text: &str, section: &str, key: &str) -> (r: Result<
    Option<String>,
    String,
>)
    ensures
        match r {
            Ok(Some(value)) => ini_value(text@, section@, key@) == Some(Some(value@)),
            Ok(None) => ini_value(text@, section@, key@) == Some(None::<Seq<char>>),
            Err(_) => ini_value(text@, section@, key@) is None,
        },
{
    let mut parser = configparser::ini::Ini::new();
    match parser.read(text.to_owned()) {
        Ok(_) => Ok(parser.get(section, key)),
        Err(why) => Err(why),
    }
}

} // verus!
