//! Encoding of objects into the canonical record
//! `<type-name> <decimal-length>\0<content>`, and the hex-rendered SHA-1
//! address of that record.

use vstd::prelude::*;
use vstd::utf8::is_ascii_chars;
use crate::decimal::{dec_digits, lemma_dec_digits_value, usize_to_dec};
use crate::decoding::{
    decode_post, lemma_first_at_is, spec_parse, ObjectParseError,
};
use crate::git_object::{
    kind_name, lower_bytes, type_of_name, GitObject, ObjectError, ObjectType,
};
use crate::git_repository::GitRepository;
use crate::hashing::{sha1_digest, sha1_of};
use vstd::slice::slice_to_vec;
use std::rc::Rc;

verus! {

/// The canonical record for an object of kind `k` with payload `c`.
pub open spec fn spec_encode(k: ObjectType, c: Seq<u8>) -> Seq<u8> {
    kind_name(k) + seq![' ' as u8] + dec_digits(c.len()) + seq![0u8] + c
}

/// Pack an object into its canonical record. Defined exactly for the kinds
/// whose body `GitObject::serialize` defines (the blob body); the others are
/// refused, never guessed.
pub fn object_file_format(object: &GitObject) -> (r: Result<Vec<u8>, ObjectError>)
    ensures
        object.kind == ObjectType::Blob ==> (r matches Ok(v) && v@ == spec_encode(
            object.kind,
            object.content@,
        )),
        object.kind != ObjectType::Blob ==> (r matches Err(ObjectError::NotImplemented())),
{
    let data = match object.serialize() {
        Ok(d) => d,
        Err(e) => {
            return Err(e);
        },
    };
    let mut result = object.kind().name_bytes();
    result.push(' ' as u8);
    let mut len_bytes = usize_to_dec(data.len());
    result.append(&mut len_bytes);
    result.push(0u8);
    let mut payload = slice_to_vec(data);
    result.append(&mut payload);
    proof {
        assert(result@ =~= spec_encode(object.kind, object.content@));
    }
    Ok(result)
}

/// The lowercase hexadecimal digit for a value below 16.
pub open spec fn hex_digit_char(d: u8) -> char {
    if d == 0 {
        '0'
    } else if d == 1 {
        '1'
    } else if d == 2 {
        '2'
    } else if d == 3 {
        '3'
    } else if d == 4 {
        '4'
    } else if d == 5 {
        '5'
    } else if d == 6 {
        '6'
    } else if d == 7 {
        '7'
    } else if d == 8 {
        '8'
    } else if d == 9 {
        '9'
    } else if d == 10 {
        'a'
    } else if d == 11 {
        'b'
    } else if d == 12 {
        'c'
    } else if d == 13 {
        'd'
    } else if d == 14 {
        'e'
    } else {
        'f'
    }
}

/// Fixed-width lowercase hex: two digits for every byte.
pub open spec fn hex_of(bytes: Seq<u8>) -> Seq<char> {
    Seq::new(
        bytes.len() * 2,
        |i: int|
            if i % 2 == 0 {
                hex_digit_char((bytes[i / 2] / 16) as u8)
            } else {
                hex_digit_char((bytes[i / 2] % 16) as u8)
            },
    )
}

/// Hex strings are plain ASCII.
pub proof fn lemma_hex_ascii(bytes: Seq<u8>)
    ensures
        is_ascii_chars(hex_of(bytes)),
{
    assert forall|i: int| 0 <= i < hex_of(bytes).len() implies '\0' <= #[trigger] hex_of(
        bytes,
    )[i] <= '\u{7f}' by {
        if i % 2 == 0 {
            assert(hex_of(bytes)[i] == hex_digit_char((bytes[i / 2] / 16) as u8));
        } else {
            assert(hex_of(bytes)[i] == hex_digit_char((bytes[i / 2] % 16) as u8));
        }
    }
}

fn hex_char_str(d: u8) -> (r: &'static str)
    requires
        d < 16,
    ensures
        r@ == seq![hex_digit_char(d)],
{
    proof {
        reveal_strlit("0");
        reveal_strlit("1");
        reveal_strlit("2");
        reveal_strlit("3");
        reveal_strlit("4");
        reveal_strlit("5");
        reveal_strlit("6");
        reveal_strlit("7");
        reveal_strlit("8");
        reveal_strlit("9");
        reveal_strlit("a");
        reveal_strlit("b");
        reveal_strlit("c");
        reveal_strlit("d");
        reveal_strlit("e");
        reveal_strlit("f");
    }
    let s = if d == 0 {
        "0"
    } else if d == 1 {
        "1"
    } else if d == 2 {
        "2"
    } else if d == 3 {
        "3"
    } else if d == 4 {
        "4"
    } else if d == 5 {
        "5"
    } else if d == 6 {
        "6"
    } else if d == 7 {
        "7"
    } else if d == 8 {
        "8"
    } else if d == 9 {
        "9"
    } else if d == 10 {
        "a"
    } else if d == 11 {
        "b"
    } else if d == 12 {
        "c"
    } else if d == 13 {
        "d"
    } else if d == 14 {
        "e"
    } else {
        "f"
    };
    assert(s@ =~= seq![hex_digit_char(d)]);
    s
}

/// Render bytes as a fixed-width lowercase hex string.
pub fn byte_array_to_string(arr: &[u8]) -> (r: String)
    ensures
        r@ == hex_of(arr@),
{
    let mut s = String::new();
    let mut i: usize = 0;
    while i < arr.len()
        invariant
            i <= arr@.len(),
            s@ == hex_of(arr@.take(i as int)),
        decreases arr@.len() - i,
    {
        let b = arr[i];
        let hi = b / 16;
        let lo = b % 16;
        s.append(hex_char_str(hi));
        s.append(hex_char_str(lo));
        proof {
            assert(s@ =~= hex_of(arr@.take(i + 1)));
        }
        i += 1;
    }
    proof {
        assert(arr@.take(i as int) =~= arr@);
    }
    s
}

/// The address of an encoded record: its SHA-1 digest in fixed-width
/// lowercase hex, 40 characters.
pub open spec fn spec_hash_hex(data: Seq<u8>) -> Seq<char> {
    hex_of(sha1_of(data))
}

/// Hash a full encoded record into its address string.
pub fn hash_bytes_as_string(content: &[u8]) -> (r: String)
    ensures
        r@ == spec_hash_hex(content@),
        r@.len() == 40,
        is_ascii_chars(r@),
{
    let digest = sha1_digest(content);
    proof {
        lemma_hex_ascii(digest@);
    }
    byte_array_to_string(digest.as_slice())
}

/// The address of an object: the hash of its canonical record.
pub open spec fn spec_address(k: ObjectType, c: Seq<u8>) -> Seq<char> {
    spec_hash_hex(spec_encode(k, c))
}

impl GitObject {
    /// The address this object would be stored under, computed without
    /// touching the filesystem. Defined exactly where encoding is.
    pub fn get_hash(&self) -> (r: Result<String, ObjectError>)
        ensures
            self.kind == ObjectType::Blob ==> (r matches Ok(h) && h@ == spec_address(
                self.kind,
                self.content@,
            ) && h@.len() == 40 && is_ascii_chars(h@)),
            self.kind != ObjectType::Blob ==> (r matches Err(ObjectError::NotImplemented())),
    {
        match object_file_format(self) {
            Ok(record) => Ok(hash_bytes_as_string(record.as_slice())),
            Err(e) => Err(e),
        }
    }
}

/// Kind names are their own lowercase form, contain neither the space nor
/// the NUL delimiter, and parse back to their kind.
pub proof fn lemma_kind_name(k: ObjectType)
    ensures
        type_of_name(kind_name(k)) == Some(k),
        forall|i: int|
            0 <= i < kind_name(k).len() ==> kind_name(k)[i] != ' ' as u8 && kind_name(k)[i] != 0u8,
        kind_name(k).len() >= 1,
{
    assert(lower_bytes(kind_name(ObjectType::Commit)) =~= kind_name(ObjectType::Commit));
    assert(lower_bytes(kind_name(ObjectType::Tree)) =~= kind_name(ObjectType::Tree));
    assert(lower_bytes(kind_name(ObjectType::Blob)) =~= kind_name(ObjectType::Blob));
    assert(lower_bytes(kind_name(ObjectType::Tag)) =~= kind_name(ObjectType::Tag));
    assert(kind_name(ObjectType::Commit).len() == 6);
    assert(kind_name(ObjectType::Tree).len() == 4);
    assert(kind_name(ObjectType::Blob).len() == 4);
    assert(kind_name(ObjectType::Tag).len() == 3);
    assert(kind_name(ObjectType::Blob)[0] != kind_name(ObjectType::Tree)[0]);
}

/// Parsing inverts encoding: the canonical record of kind `k` and payload
/// `c` splits back into the kind's name, the canonical numeral for the
/// payload length, and the payload itself.
pub proof fn lemma_parse_encode(k: ObjectType, c: Seq<u8>)
    ensures
        spec_parse(spec_encode(k, c)) == Ok::<(Seq<u8>, Seq<u8>, Seq<u8>), ObjectParseError>(
            (kind_name(k), dec_digits(c.len()), c),
        ),
{
    let name = kind_name(k);
    let digits = dec_digits(c.len());
    let s = spec_encode(k, c);
    lemma_kind_name(k);
    lemma_dec_digits_value(c.len());
    let sp = name.len() as int;
    assert(s.take(sp) =~= name);
    assert(s[sp] == ' ' as u8);
    assert(forall|j: int| 0 <= j < sp ==> s[j] == name[j]);
    lemma_first_at_is(s, ' ' as u8, sp);
    let t = s.skip(sp);
    let k0 = 1 + digits.len() as int;
    assert(t =~= seq![' ' as u8] + digits + seq![0u8] + c);
    assert(t[0] == ' ' as u8);
    assert(forall|j: int| 1 <= j < k0 ==> t[j] == digits[j - 1]);
    assert(t[k0] == 0u8);
    lemma_first_at_is(t, 0u8, k0);
    assert(s.subrange(sp + 1, sp + k0) =~= digits);
    assert(s.skip(sp + k0 + 1) =~= c);
}

/// Round trip: decoding the canonical record of kind `k` and payload `c`
/// (any payload that fits in memory) succeeds and gives back exactly that
/// kind and payload — in particular, for every blob content `c`,
/// `decode(encode(blob c))` is the same blob.
pub proof fn lemma_decode_encode_round_trip(
    r: Result<GitObject, ObjectParseError>,
    k: ObjectType,
    c: Seq<u8>,
    repo: Rc<GitRepository>,
)
    requires
        c.len() <= usize::MAX as nat,
        decode_post(r, spec_encode(k, c), repo),
    ensures
        r is Ok,
        r->Ok_0.kind == k,
        r->Ok_0.content@ == c,
        r->Ok_0.repo == repo,
{
    lemma_parse_encode(k, c);
    lemma_dec_digits_value(c.len());
    lemma_kind_name(k);
}

/// Encoding is injective: equal records can only come from the same kind and
/// the same payload. An address collision between different objects would
/// therefore require a SHA-1 collision.
pub proof fn lemma_encode_injective(k1: ObjectType, c1: Seq<u8>, k2: ObjectType, c2: Seq<u8>)
    requires
        spec_encode(k1, c1) == spec_encode(k2, c2),
    ensures
        k1 == k2,
        c1 == c2,
{
    lemma_parse_encode(k1, c1);
    lemma_parse_encode(k2, c2);
    lemma_kind_name(k1);
    lemma_kind_name(k2);
}

/// The address is a function of the object's kind and content alone: equal
/// objects always hash to equal addresses.
pub proof fn lemma_address_deterministic(k1: ObjectType, c1: Seq<u8>, k2: ObjectType, c2: Seq<u8>)
    requires
        k1 == k2,
        c1 == c2,
    ensures
        spec_address(k1, c1) == spec_address(k2, c2),
{
}

} // verus!
