//! The object store's read and write paths, up to the filesystem boundary.
//!
//! Writing an object means computing its address, deriving the storage path
//! `objects/<address[0..2]>/<address[2..]>` under the repository's metadata
//! directory, and placing the compressed record there; reading reverses the
//! trip. The filesystem itself stays with the caller: this module computes
//! the exact path and bytes to write, and decodes the exact bytes read.

use vstd::prelude::*;
use vstd::utf8::is_ascii_chars;
use crate::compression::{compress_bytes, decompress_bytes, zlib_decode_of, zlib_of};
use crate::decoding::{bytes_to_object, decode_post, ObjectParseError};
use crate::encoding::{
    hash_bytes_as_string, lemma_decode_encode_round_trip, object_file_format, spec_address,
    spec_encode,
};
use crate::git_object::{GitObject, ObjectError, ObjectType};
use crate::git_repository::GitRepository;
use crate::hashing::{sha1_digest, sha1_of};
use std::rc::Rc;

verus! {

/// The path, relative to nothing (it already starts from the metadata
/// directory), at which the record for address `sha` lives:
/// `<gitdir>/objects/<sha[0..2]>/<sha[2..]>`.
pub fn object_file_location(repo: &GitRepository, sha: &str) -> (r: String)
    requires
        sha@.len() >= 2,
        sha.is_ascii(),
    ensures
        r@ == repo.gitdir@ + "/objects/"@ + sha@.take(2) + "/"@ + sha@.skip(2),
{
    let mut path = repo.gitdir.clone();
    path.append("/objects/");
    path.append(sha.substring_ascii(0, 2));
    path.append("/");
    let n = sha.unicode_len();
    path.append(sha.substring_ascii(2, n));
    proof {
        assert(sha@.subrange(2, sha@.len() as int) =~= sha@.skip(2));
    }
    path
}

/// The SHA-1 digest (raw 20 bytes) of an object's canonical record.
pub fn hash_object(object: &GitObject) -> (r: Result<Vec<u8>, ObjectError>)
    ensures
        object.kind == ObjectType::Blob ==> (r matches Ok(d) && d@ == sha1_of(
            spec_encode(object.kind, object.content@),
        ) && d@.len() == 20),
        object.kind != ObjectType::Blob ==> (r matches Err(ObjectError::NotImplemented())),
{
    match object_file_format(object) {
        Ok(record) => Ok(sha1_digest(record.as_slice())),
        Err(e) => Err(e),
    }
}

/// What writing an object produces: for a blob, its 40-character address and
/// the compressed record to place there; for the other kinds, whose body
/// layout is out of scope, a refusal.
pub open spec fn write_post(
    r: Result<(String, Vec<u8>), ObjectError>,
    k: ObjectType,
    c: Seq<u8>,
) -> bool {
    if k == ObjectType::Blob {
        &&& r is Ok
        &&& r->Ok_0.0@ == spec_address(k, c)
        &&& r->Ok_0.0@.len() == 40
        &&& is_ascii_chars(r->Ok_0.0@)
        &&& r->Ok_0.1@ == zlib_of(spec_encode(k, c))
    } else {
        r matches Err(ObjectError::NotImplemented())
    }
}

/// Compute everything a write places on disk: the object's address and the
/// compressed form of its canonical record. The caller writes those bytes at
/// `object_file_location` of the address, overwriting whatever is there —
/// same-address records carry identical bytes by construction.
pub fn stored_record(object: &GitObject) -> (r: Result<(String, Vec<u8>), ObjectError>)
    ensures
        write_post(r, object.kind, object.content@),
{
    let record = match object_file_format(object) {
        Ok(record) => record,
        Err(e) => {
            return Err(e);
        },
    };
    let address = hash_bytes_as_string(record.as_slice());
    let compressed = compress_bytes(record.as_slice());
    Ok((address, compressed))
}

/// What reading stored bytes produces: whenever the bytes are the compressed
/// form of some record, the result is exactly that record's decoding; what
/// decompresses at all is decoded exactly; and a corrupt or truncated stream
/// is an I/O-stage error, never a fabricated object.
pub open spec fn read_post(
    r: Result<GitObject, ObjectParseError>,
    data: Seq<u8>,
    repo: Rc<GitRepository>,
) -> bool {
    &&& forall|orig: Seq<u8>| data == zlib_of(orig) ==> decode_post(r, orig, repo)
    &&& match zlib_decode_of(data) {
        Ok(raw) => decode_post(r, raw, repo),
        Err(()) => r matches Err(ObjectParseError::IOError(_)),
    }
}

/// Decode the bytes found at an object's storage path: decompress them
/// (a corrupt stream is an error, never partial output) and decode the
/// record, validating its structure.
pub fn read_stored(bytes: &[u8], repo: &Rc<GitRepository>) -> (r: Result<
    GitObject,
    ObjectParseError,
>)
    ensures
        read_post(r, bytes@, *repo),
{
    match decompress_bytes(bytes) {
        Ok(raw) => bytes_to_object(raw.as_slice(), repo),
        Err(msg) => Err(ObjectParseError::IOError(msg)),
    }
}

/// Writing is deterministic: two writes of objects with the same kind and
/// content produce the same address and leave identical bytes on disk, so
/// re-writing an object is idempotent.
pub proof fn lemma_write_idempotent(
    w1: Result<(String, Vec<u8>), ObjectError>,
    w2: Result<(String, Vec<u8>), ObjectError>,
    c: Seq<u8>,
)
    requires
        write_post(w1, ObjectType::Blob, c),
        write_post(w2, ObjectType::Blob, c),
    ensures
        w1->Ok_0.0@ == w2->Ok_0.0@,
        w1->Ok_0.1@ == w2->Ok_0.1@,
{
}

/// Storage round trip: reading back the bytes a write produced yields an
/// object equal in kind and content to the one written.
pub proof fn lemma_write_read_round_trip(
    w: Result<(String, Vec<u8>), ObjectError>,
    r: Result<GitObject, ObjectParseError>,
    c: Seq<u8>,
    repo: Rc<GitRepository>,
)
    requires
        c.len() <= usize::MAX as nat,
        write_post(w, ObjectType::Blob, c),
        read_post(r, w->Ok_0.1@, repo),
    ensures
        r is Ok,
        r->Ok_0.kind == ObjectType::Blob,
        r->Ok_0.content@ == c,
        r->Ok_0.repo == repo,
{
    let record = spec_encode(ObjectType::Blob, c);
    assert(w->Ok_0.1@ == zlib_of(record));
    assert(decode_post(r, record, repo));
    lemma_decode_encode_round_trip(r, ObjectType::Blob, c, repo);
}

} // verus!
