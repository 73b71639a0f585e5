//! gzip compression of file contents, done by the `flate2` crate.

use vstd::prelude::*;

verus! {

/// The gzip stream that `flate2`'s encoder makes of `data` at its default
/// compression level; `None` where the encoder reports a failure.
pub uninterp spec fn gzip_stream(data: Seq<u8>) -> Option<Seq<u8>>;

/// The data that `flate2`'s decoder reads from the gzip stream `stream`;
/// `None` where the decoder reports a failure.
pub uninterp spec fn gunzip_stream(stream: Seq<u8>) -> Option<Seq<u8>>;

/// The encoder or the decoder reported a failure.
#[derive(Debug, Clone, Copy, PartialEq, Eq, Structural)]
pub struct CompressionError;

/// Runs `flate2::bufread::GzEncoder`, made by `GzEncoder::new` with
/// `Compression::default()`, over `data` until its end.
///
/// Trusted: what comes out is the stream named [`gzip_stream`], and
/// `flate2`'s decoder reads the encoded data back from it unchanged.
#[verifier::external_body]
fn encode(data: &[u8]) -> (out: Option<Vec<u8>>)
    ensures
        match out {
            Some(stream) => gzip_stream(data@) == Some(stream@) && gunzip_stream(stream@) == Some(
                data@,
            ),
            None => gzip_stream(data@) is None,
        },
{
    let mut encoder = flate2::bufread::GzEncoder::new(data, flate2::Compression::default());
    let mut stream = Vec::new();
    match std::io::Read::read_to_end(&mut encoder, &mut stream) {
        Ok(_) => Some(stream),
        Err(_) => None,
    }
}

/// Runs `flate2::bufread::GzDecoder`, made by `GzDecoder::new`, over
/// `stream` until the end of its output.
///
/// Trusted: what comes out is the data named [`gunzip_stream`].
#[verifier::external_body]
fn decode(stream: &[u8]) -> (out: Option<Vec<u8>>)
    ensures
        match out {
            Some(data) => gunzip_stream(stream@) == Some(data@),
            None => gunzip_stream(stream@) is None,
        },
{
    let mut decoder = flate2::bufread::GzDecoder::new(stream);
    let mut data = Vec::new();
    match std::io::Read::read_to_end(&mut decoder, &mut data) {
        Ok(_) => Some(data),
        Err(_) => None,
    }
}

/// Compresses `data` into a gzip stream.
///
/// Whatever stream comes out, decompressing it gives `data` back.
pub fn compress(data: &[u8]) -> (r: Result<Vec<u8>, CompressionError>)
    ensures
        match r {
            Ok(stream) => gzip_stream(data@) == Some(stream@) && gunzip_stream(stream@) == Some(
                data@,
            ),
            Err(_) => gzip_stream(data@) is None,
        },
{
    match encode(data) {
        Some(stream) => Ok(stream),
        None => Err(CompressionError),
    }
}

/// Decompresses a gzip stream.
pub fn decompress(stream: &[u8]) -> (r: Result<Vec<u8>, CompressionError>)
    ensures
        match r {
            Ok(data) => gunzip_stream(stream@) == Some(data@),
            Err(_) => gunzip_stream(stream@) is None,
        },
{
    match decode(stream) {
        Some(data) => Ok(data),
        None => Err(CompressionError),
    }
}

} // verus!
