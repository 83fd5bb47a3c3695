//! Object kinds and the in-memory object record.

use vstd::prelude::*;
use vstd::string::{StrSliceExecFns, StringSliceAdditionalSpecFns};
use crate::decoding::ObjectParseError;
use crate::git_repository::GitRepository;
use std::rc::Rc;

verus! {

/// The closed set of object kinds the store knows about.
#[derive(PartialEq, Eq, Structural, Clone, Copy, Debug)]
pub enum ObjectType {
    Commit,
    Tree,
    Blob,
    Tag,
}

/// The canonical (lowercase ASCII) name of an object kind, as it appears in
/// the encoded record's header.
pub open spec fn kind_name(k: ObjectType) -> Seq<u8> {
    match k {
        ObjectType::Commit => seq!['c' as u8, 'o' as u8, 'm' as u8, 'm' as u8, 'i' as u8, 't' as u8],
        ObjectType::Tree => seq!['t' as u8, 'r' as u8, 'e' as u8, 'e' as u8],
        ObjectType::Blob => seq!['b' as u8, 'l' as u8, 'o' as u8, 'b' as u8],
        ObjectType::Tag => seq!['t' as u8, 'a' as u8, 'g' as u8],
    }
}

/// ASCII lowercasing of a single byte.
pub open spec fn lower_byte(b: u8) -> u8 {
    if 'A' as u8 <= b && b <= 'Z' as u8 {
        (b + 32) as u8
    } else {
        b
    }
}

/// ASCII lowercasing of a byte sequence.
pub open spec fn lower_bytes(s: Seq<u8>) -> Seq<u8> {
    s.map_values(|b: u8| lower_byte(b))
}

/// The kind whose name matches `s` up to ASCII case, if any.
pub open spec fn type_of_name(s: Seq<u8>) -> Option<ObjectType> {
    if lower_bytes(s) == kind_name(ObjectType::Commit) {
        Some(ObjectType::Commit)
    } else if lower_bytes(s) == kind_name(ObjectType::Tree) {
        Some(ObjectType::Tree)
    } else if lower_bytes(s) == kind_name(ObjectType::Blob) {
        Some(ObjectType::Blob)
    } else if lower_bytes(s) == kind_name(ObjectType::Tag) {
        Some(ObjectType::Tag)
    } else {
        None
    }
}

/// The canonical (lowercase ASCII) name of a kind, as characters.
pub open spec fn kind_name_chars(k: ObjectType) -> Seq<char> {
    match k {
        ObjectType::Commit => seq!['c', 'o', 'm', 'm', 'i', 't'],
        ObjectType::Tree => seq!['t', 'r', 'e', 'e'],
        ObjectType::Blob => seq!['b', 'l', 'o', 'b'],
        ObjectType::Tag => seq!['t', 'a', 'g'],
    }
}

impl ObjectType {
    /// The kind's canonical name as a string.
    pub fn to_string(&self) -> (r: String)
        ensures
            r@ == kind_name_chars(*self),
    {
        proof {
            reveal_strlit("commit");
            reveal_strlit("tree");
            reveal_strlit("blob");
            reveal_strlit("tag");
        }
        match self {
            ObjectType::Commit => {
                let s = String::from_str("commit");
                assert(s@ =~= kind_name_chars(ObjectType::Commit));
                s
            },
            ObjectType::Tree => {
                let s = String::from_str("tree");
                assert(s@ =~= kind_name_chars(ObjectType::Tree));
                s
            },
            ObjectType::Blob => {
                let s = String::from_str("blob");
                assert(s@ =~= kind_name_chars(ObjectType::Blob));
                s
            },
            ObjectType::Tag => {
                let s = String::from_str("tag");
                assert(s@ =~= kind_name_chars(ObjectType::Tag));
                s
            },
        }
    }

    /// The kind's canonical name as bytes.
    pub fn name_bytes(&self) -> (r: Vec<u8>)
        ensures
            r@ == kind_name(*self),
    {
        match self {
            ObjectType::Commit => {
                let v: Vec<u8> = vec!['c' as u8, 'o' as u8, 'm' as u8, 'm' as u8, 'i' as u8, 't' as u8];
                assert(v@ =~= kind_name(ObjectType::Commit));
                v
            },
            ObjectType::Tree => {
                let v: Vec<u8> = vec!['t' as u8, 'r' as u8, 'e' as u8, 'e' as u8];
                assert(v@ =~= kind_name(ObjectType::Tree));
                v
            },
            ObjectType::Blob => {
                let v: Vec<u8> = vec!['b' as u8, 'l' as u8, 'o' as u8, 'b' as u8];
                assert(v@ =~= kind_name(ObjectType::Blob));
                v
            },
            ObjectType::Tag => {
                let v: Vec<u8> = vec!['t' as u8, 'a' as u8, 'g' as u8];
                assert(v@ =~= kind_name(ObjectType::Tag));
                v
            },
        }
    }
}

/// Lowercase one byte.
pub fn lower_byte_exec(b: u8) -> (r: u8)
    ensures
        r == lower_byte(b),
{
    if 'A' as u8 <= b && b <= 'Z' as u8 {
        b + 32
    } else {
        b
    }
}

/// Whether `bytes`, lowered to ASCII lowercase, equals `name`.
pub fn matches_name(bytes: &[u8], name: &[u8]) -> (r: bool)
    ensures
        r == (lower_bytes(bytes@) == name@),
{
    if bytes.len() != name.len() {
        assert(lower_bytes(bytes@).len() == bytes@.len());
        return false;
    }
    let mut i: usize = 0;
    while i < bytes.len()
        invariant
            i <= bytes@.len(),
            bytes@.len() == name@.len(),
            forall|j: int| 0 <= j < i ==> lower_byte(bytes@[j]) == name@[j],
        decreases bytes@.len() - i,
    {
        if lower_byte_exec(bytes[i]) != name[i] {
            assert(lower_bytes(bytes@)[i as int] != name@[i as int]);
            return false;
        }
        i += 1;
    }
    assert(lower_bytes(bytes@) =~= name@);
    true
}

/// Parse an object kind from its (case-insensitive) name given as bytes.
pub fn type_from_bytes(bytes: &[u8]) -> (r: Option<ObjectType>)
    ensures
        r == type_of_name(bytes@),
{
    let commit = ObjectType::Commit.name_bytes();
    if matches_name(bytes, commit.as_slice()) {
        return Some(ObjectType::Commit);
    }
    let tree = ObjectType::Tree.name_bytes();
    if matches_name(bytes, tree.as_slice()) {
        return Some(ObjectType::Tree);
    }
    let blob = ObjectType::Blob.name_bytes();
    if matches_name(bytes, blob.as_slice()) {
        return Some(ObjectType::Blob);
    }
    let tag = ObjectType::Tag.name_bytes();
    if matches_name(bytes, tag.as_slice()) {
        return Some(ObjectType::Tag);
    }
    None
}

/// Unit marker for the tree kind.
#[derive(PartialEq, Eq, Structural, Clone, Copy, Debug)]
pub struct Tree {}

impl Tree {
    pub fn new() -> (r: Tree)
        ensures
            r == (Tree {  }),
    {
        Tree {  }
    }
}

/// Unit marker for the blob kind.
#[derive(PartialEq, Eq, Structural, Clone, Copy, Debug)]
pub struct Blob {}

impl Blob {
    pub fn new() -> (r: Blob)
        ensures
            r == (Blob {  }),
    {
        Blob {  }
    }
}

/// Unit marker for the tag kind.
#[derive(PartialEq, Eq, Structural, Clone, Copy, Debug)]
pub struct Tag {}

impl Tag {
    pub fn new() -> (r: Tag)
        ensures
            r == (Tag {  }),
    {
        Tag {  }
    }
}

/// A type name that does not belong to the closed set of kinds.
#[derive(Debug)]
pub struct InvalidObject {
    pub name: String,
}

/// Parse an object kind from its case-insensitive name.
pub fn parse_object_type(s: &str) -> (r: Result<ObjectType, InvalidObject>)
    ensures
        match type_of_name(s.spec_bytes()) {
            Some(k) => r == Ok::<ObjectType, InvalidObject>(k),
            None => r matches Err(e) && e.name@ == s@,
        },
{
    let bytes = s.as_bytes_vec();
    match type_from_bytes(bytes.as_slice()) {
        Some(k) => Ok(k),
        None => Err(InvalidObject { name: s.to_owned() }),
    }
}

/// Everything that can go wrong while building, encoding or storing an
/// object. `NotFound` is specifically a missing object at its derived
/// storage path; any other filesystem failure is `FileIo`.
#[derive(Debug)]
pub enum ObjectError {
    FileIo(String),
    FileParse(ObjectParseError),
    NotFound(),
    NotImplemented(),
}

impl ObjectError {
    /// The human-readable description of this error.
    pub open spec fn spec_message(self) -> Seq<char> {
        match self {
            ObjectError::FileIo(m) => "Failed to access file: "@ + m@,
            ObjectError::FileParse(e) => "Unable to parse file: "@ + e.spec_message(),
            ObjectError::NotFound() => "No object stored at the derived path"@,
            ObjectError::NotImplemented() => "Operation is not implemented for this object kind"@,
        }
    }

    pub fn message(&self) -> (r: String)
        ensures
            r@ == self.spec_message(),
    {
        match self {
            ObjectError::FileIo(m) => {
                let mut s = String::from_str("Failed to access file: ");
                s.append(m.as_str());
                s
            },
            ObjectError::FileParse(e) => {
                let mut s = String::from_str("Unable to parse file: ");
                let inner = e.message();
                s.append(inner.as_str());
                s
            },
            ObjectError::NotFound() => String::from_str("No object stored at the derived path"),
            ObjectError::NotImplemented() => String::from_str(
                "Operation is not implemented for this object kind",
            ),
        }
    }
}

/// Relies on std's `Rc::clone`: the returned handle is the same value.
#[verifier::external_body]
pub(crate) fn clone_repo_handle(r: &Rc<GitRepository>) -> (res: Rc<GitRepository>)
    ensures
        res == *r,
{
    Rc::clone(r)
}

/// An in-memory object: a kind, its raw byte payload, and a non-owning
/// handle on the repository whose object directory it belongs to.
pub struct GitObject {
    pub kind: ObjectType,
    pub content: Vec<u8>,
    pub repo: Rc<GitRepository>,
}

impl GitObject {
    pub fn new(kind: ObjectType, content: Vec<u8>, repo: &Rc<GitRepository>) -> (r: GitObject)
        ensures
            r.kind == kind,
            r.content == content,
            r.repo == *repo,
    {
        GitObject { kind, content, repo: clone_repo_handle(repo) }
    }

    pub fn kind(&self) -> (r: &ObjectType)
        ensures
            *r == self.kind,
    {
        &self.kind
    }

    pub fn content(&self) -> (r: &[u8])
        ensures
            r@ == self.content@,
    {
        self.content.as_slice()
    }

    pub fn repo(&self) -> (r: &Rc<GitRepository>)
        ensures
            *r == self.repo,
    {
        &self.repo
    }

    /// The object's body as it is laid out in the encoded record. Only the
    /// blob body is defined: it is the payload unchanged. The body layout of
    /// the other kinds is out of scope and asking for it is an error, never
    /// a guess.
    pub fn serialize(&self) -> (r: Result<&[u8], ObjectError>)
        ensures
            self.kind == ObjectType::Blob ==> (r matches Ok(d) && d@ == self.content@),
            self.kind != ObjectType::Blob ==> (r matches Err(ObjectError::NotImplemented())),
    {
        match self.kind {
            ObjectType::Blob => Ok(self.content.as_slice()),
            _ => Err(ObjectError::NotImplemented()),
        }
    }

    /// Replace the object's payload from a decoded body. As with
    /// `serialize`, only the blob body is defined.
    pub fn deserialize(&mut self, data: Vec<u8>) -> (r: Result<(), ObjectError>)
        ensures
            old(self).kind == ObjectType::Blob ==> r is Ok && final(self).kind == old(self).kind
                && final(self).content == data && final(self).repo == old(self).repo,
            old(self).kind != ObjectType::Blob ==> (r matches Err(ObjectError::NotImplemented())
                && *final(self) == *old(self)),
    {
        match self.kind {
            ObjectType::Blob => {
                self.content = data;
                Ok(())
            },
            _ => Err(ObjectError::NotImplemented()),
        }
    }
}

} // verus!
