//! Decoding of the canonical object record: `<type-name> <decimal-length>\0<content>`.
//!
//! The checks run in a fixed order, so malformed input always reports the
//! earliest structural problem: the space delimiter is found first, then the
//! NUL terminator, then the length is read as a number and compared with the
//! actual payload size, and only then is the type name looked up.

use vstd::prelude::*;
use vstd::slice::{slice_subrange, slice_to_vec};
use crate::decimal::{dec_value, is_digits, parse_decimal};
use crate::git_object::{clone_repo_handle, type_of_name, GitObject, ObjectType};
use crate::git_repository::GitRepository;
use crate::git_object::type_from_bytes;
use std::rc::Rc;

verus! {

/// Everything that can go wrong while decoding an object record.
#[derive(Debug)]
pub enum ObjectParseError {
    SizeNotNumber(),
    ObjectWrongSize(),
    IOError(String),
    ObjectTypeNotRecognized(Vec<u8>),
    SizeNotFound(),
    TypeNotFound(),
}

impl ObjectParseError {
    /// The human-readable description of this error.
    pub open spec fn spec_message(self) -> Seq<char> {
        match self {
            ObjectParseError::SizeNotNumber() => "Could not parse object size"@,
            ObjectParseError::ObjectWrongSize() => "Object was not the size indicated in file"@,
            ObjectParseError::IOError(m) => "Could not open file for reading: "@ + m@,
            ObjectParseError::ObjectTypeNotRecognized(_) => "Object type is not recognized/supported"@,
            ObjectParseError::SizeNotFound() => "Ascii null not found at the end of object size"@,
            ObjectParseError::TypeNotFound() => "Ascii space not found at the end of object type"@,
        }
    }

    pub fn message(&self) -> (r: String)
        ensures
            r@ == self.spec_message(),
    {
        match self {
            ObjectParseError::SizeNotNumber() => String::from_str("Could not parse object size"),
            ObjectParseError::ObjectWrongSize() => String::from_str(
                "Object was not the size indicated in file",
            ),
            ObjectParseError::IOError(m) => {
                let mut s = String::from_str("Could not open file for reading: ");
                s.append(m.as_str());
                s
            },
            ObjectParseError::ObjectTypeNotRecognized(_) => String::from_str(
                "Object type is not recognized/supported",
            ),
            ObjectParseError::SizeNotFound() => String::from_str(
                "Ascii null not found at the end of object size",
            ),
            ObjectParseError::TypeNotFound() => String::from_str(
                "Ascii space not found at the end of object type",
            ),
        }
    }
}

/// The ways a caller may name an object to look it up; only full addresses
/// are understood by this store, so there is a single placeholder format.
pub enum GitNameFormat {
    Placeholder,
}

/// The three raw header pieces of a record, before validation.
pub struct ObjectData {
    pub length: Vec<u8>,
    pub obj_type: Vec<u8>,
    pub content: Vec<u8>,
}

/// The index of the first occurrence of `b` in `s`, if any.
pub open spec fn first_at(s: Seq<u8>, b: u8) -> Option<int>
    decreases s.len(),
{
    if s.len() == 0 {
        None
    } else if s[0] == b {
        Some(0)
    } else {
        match first_at(s.drop_first(), b) {
            Some(i) => Some(i + 1),
            None => None,
        }
    }
}

/// `first_at` finds exactly the position a left-to-right scan finds.
pub proof fn lemma_first_at_is(s: Seq<u8>, b: u8, i: int)
    requires
        0 <= i < s.len(),
        s[i] == b,
        forall|j: int| 0 <= j < i ==> s[j] != b,
    ensures
        first_at(s, b) == Some(i),
    decreases s.len(),
{
    if s[0] != b {
        lemma_first_at_is(s.drop_first(), b, i - 1);
    }
}

pub proof fn lemma_first_at_none(s: Seq<u8>, b: u8)
    requires
        forall|j: int| 0 <= j < s.len() ==> s[j] != b,
    ensures
        first_at(s, b) is None,
    decreases s.len(),
{
    if s.len() > 0 {
        lemma_first_at_none(s.drop_first(), b);
    }
}

/// The raw pieces of a record: the bytes before the first space, the bytes
/// between that space and the first NUL at or after it, and everything after
/// that NUL.
pub open spec fn spec_parse(s: Seq<u8>) -> Result<(Seq<u8>, Seq<u8>, Seq<u8>), ObjectParseError> {
    match first_at(s, ' ' as u8) {
        None => Err(ObjectParseError::TypeNotFound()),
        Some(sp) => match first_at(s.skip(sp), 0u8) {
            None => Err(ObjectParseError::SizeNotFound()),
            Some(k) => Ok((s.take(sp), s.subrange(sp + 1, sp + k), s.skip(sp + k + 1))),
        },
    }
}

/// How a parse result relates to `spec_parse` of the input.
pub open spec fn parse_post(r: Result<ObjectData, ObjectParseError>, s: Seq<u8>) -> bool {
    match spec_parse(s) {
        Err(e) => r == Err::<ObjectData, ObjectParseError>(e),
        Ok(p) => {
            &&& r is Ok
            &&& r->Ok_0.obj_type@ == p.0
            &&& r->Ok_0.length@ == p.1
            &&& r->Ok_0.content@ == p.2
        },
    }
}

/// Find the first occurrence of `b` at or after `from`.
fn find_byte(bytes: &[u8], from: usize, b: u8) -> (r: Option<usize>)
    requires
        from <= bytes@.len(),
    ensures
        match r {
            Some(i) => from <= i < bytes@.len() && bytes@[i as int] == b && (forall|j: int|
                from <= j < i ==> bytes@[j] != b),
            None => forall|j: int| from <= j < bytes@.len() ==> bytes@[j] != b,
        },
{
    let mut i = from;
    while i < bytes.len()
        invariant
            from <= i <= bytes@.len(),
            forall|j: int| from <= j < i ==> bytes@[j] != b,
        decreases bytes@.len() - i,
    {
        if bytes[i] == b {
            return Some(i);
        }
        i += 1;
    }
    None
}

/// Split a record into its raw header pieces, reporting a missing space or
/// NUL delimiter.
pub fn parse_bytes(bytes: &[u8]) -> (r: Result<ObjectData, ObjectParseError>)
    ensures
        parse_post(r, bytes@),
{
    let sp = match find_byte(bytes, 0, ' ' as u8) {
        None => {
            proof {
                lemma_first_at_none(bytes@, ' ' as u8);
            }
            return Err(ObjectParseError::TypeNotFound());
        },
        Some(sp) => sp,
    };
    proof {
        lemma_first_at_is(bytes@, ' ' as u8, sp as int);
    }
    let nul = match find_byte(bytes, sp, 0u8) {
        None => {
            proof {
                let tail = bytes@.skip(sp as int);
                assert(forall|j: int| 0 <= j < tail.len() ==> tail[j] != 0u8);
                lemma_first_at_none(tail, 0u8);
            }
            return Err(ObjectParseError::SizeNotFound());
        },
        Some(nul) => nul,
    };
    proof {
        let tail = bytes@.skip(sp as int);
        assert(tail[nul - sp] == 0u8);
        assert(forall|j: int| 0 <= j < nul - sp ==> tail[j] != 0u8);
        lemma_first_at_is(tail, 0u8, nul as int - sp as int);
        assert(bytes@[sp as int] == ' ' as u8);
        assert(nul > sp);
    }
    let n = bytes.len();
    assert(sp < nul < n);
    let obj_type = slice_to_vec(slice_subrange(bytes, 0, sp));
    let length = slice_to_vec(slice_subrange(bytes, sp + 1, nul));
    let content = slice_to_vec(slice_subrange(bytes, nul + 1, n));
    proof {
        assert(bytes@.subrange(0, sp as int) =~= bytes@.take(sp as int));
        assert(bytes@.subrange(nul + 1, bytes@.len() as int) =~= bytes@.skip(nul + 1));
    }
    Ok(ObjectData { length, obj_type, content })
}

/// How a validated object (or its rejection) relates to raw header pieces.
pub open spec fn validate_post(
    r: Result<GitObject, ObjectParseError>,
    t: Seq<u8>,
    l: Seq<u8>,
    c: Seq<u8>,
    repo: Rc<GitRepository>,
) -> bool {
    if !(is_digits(l) && dec_value(l) <= usize::MAX as nat) {
        r matches Err(ObjectParseError::SizeNotNumber())
    } else if dec_value(l) != c.len() {
        r matches Err(ObjectParseError::ObjectWrongSize())
    } else {
        match type_of_name(t) {
            Some(k) => {
                &&& r is Ok
                &&& r->Ok_0.kind == k
                &&& r->Ok_0.content@ == c
                &&& r->Ok_0.repo == repo
            },
            None => r matches Err(ObjectParseError::ObjectTypeNotRecognized(n)) && n@ == t,
        }
    }
}

/// Check the raw pieces of a record — the length must be a numeral denoting
/// the payload's exact size, and the type name must be a known kind — and
/// build the object.
pub fn validate_object(repo: &Rc<GitRepository>, data: ObjectData) -> (r: Result<
    GitObject,
    ObjectParseError,
>)
    ensures
        validate_post(r, data.obj_type@, data.length@, data.content@, *repo),
{
    let size = match parse_decimal(data.length.as_slice()) {
        None => {
            return Err(ObjectParseError::SizeNotNumber());
        },
        Some(size) => size,
    };
    if size != data.content.len() {
        return Err(ObjectParseError::ObjectWrongSize());
    }
    match type_from_bytes(data.obj_type.as_slice()) {
        Some(kind) => Ok(GitObject { kind, content: data.content, repo: clone_repo_handle(repo) }),
        None => Err(ObjectParseError::ObjectTypeNotRecognized(data.obj_type)),
    }
}

/// How a decoded object relates to the full record bytes.
pub open spec fn decode_post(
    r: Result<GitObject, ObjectParseError>,
    s: Seq<u8>,
    repo: Rc<GitRepository>,
) -> bool {
    match spec_parse(s) {
        Err(e) => r == Err::<GitObject, ObjectParseError>(e),
        Ok(p) => validate_post(r, p.0, p.1, p.2, repo),
    }
}

/// Decode a full (already decompressed) record into an object belonging to
/// `repo`.
pub fn bytes_to_object(bytes: &[u8], repo: &Rc<GitRepository>) -> (r: Result<
    GitObject,
    ObjectParseError,
>)
    ensures
        decode_post(r, bytes@, *repo),
{
    match parse_bytes(bytes) {
        Err(e) => Err(e),
        Ok(data) => validate_object(repo, data),
    }
}

} // verus!
