//! The storage-boundary compression filter: every on-disk record is the
//! zlib-compressed form of its encoded record, and hashing and validation
//! always happen on the uncompressed bytes.

use vstd::prelude::*;
use flate2::read::ZlibDecoder;
use flate2::write::ZlibEncoder;
use flate2::Compression;
use std::io::Read;
use std::io::Write;

verus! {

/// The zlib-compressed form of a byte sequence at the default compression
/// level; a function of the bytes alone.
pub uninterp spec fn zlib_of(data: Seq<u8>) -> Seq<u8>;

/// Relies on flate2's `ZlibEncoder`: compressing into a `Vec` cannot fail,
/// and the output is a pure function of the input bytes.
#[verifier::external_body]
pub(crate) fn compress_bytes(data: &[u8]) -> (r: Vec<u8>)
    ensures
        r@ == zlib_of(data@),
{
    let mut encoder = ZlibEncoder::new(Vec::new(), Compression::default());
    encoder.write_all(data).expect("writing to a Vec cannot fail");
    encoder.finish().expect("flushing to a Vec cannot fail")
}

/// What zlib decompression makes of a byte sequence: the decompressed bytes
/// of a complete stream, or a failure for anything corrupt or truncated. A
/// function of the bytes alone.
pub uninterp spec fn zlib_decode_of(data: Seq<u8>) -> Result<Seq<u8>, ()>;

/// Decompression losslessly inverts compression: whenever the input is the
/// compressed form of some original, the result is `Ok` with exactly that
/// original.
pub open spec fn decompress_post(r: Result<Vec<u8>, String>, data: Seq<u8>) -> bool {
    forall|orig: Seq<u8>| data == zlib_of(orig) ==> (r matches Ok(v) && v@ == orig)
}

/// Relies on flate2's `ZlibDecoder`: decompression losslessly inverts
/// compression — the compressed form of `orig` decompresses to exactly
/// `orig` — and a corrupt or truncated stream is reported as an error,
/// never as partial output; success and output are a function of the input
/// bytes alone.
#[verifier::external_body]
pub(crate) fn decompress_bytes(data: &[u8]) -> (r: Result<Vec<u8>, String>)
    ensures
        decompress_post(r, data@),
        r is Ok <==> zlib_decode_of(data@) is Ok,
        r matches Ok(v) ==> v@ == zlib_decode_of(data@)->Ok_0,
{
    let mut decoder = ZlibDecoder::new(data);
    let mut raw = Vec::<u8>::new();
    match decoder.read_to_end(&mut raw) {
        Ok(_) => Ok(raw),
        Err(e) => Err(e.to_string()),
    }
}

} // verus!
