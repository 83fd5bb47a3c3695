use configparser::ini::Ini;
use std::rc::Rc;
use wyag::decimal::{parse_decimal, usize_to_dec};
use wyag::decoding::{bytes_to_object, ObjectParseError};
use wyag::encoding::object_file_format;
use wyag::git_object::{parse_object_type, type_from_bytes, GitObject, ObjectType};
use wyag::git_repository::GitRepository;

fn test_repo() -> Rc<GitRepository> {
    Rc::new(GitRepository::new(
        String::from("repo"),
        String::from("repo/.git"),
        Ini::new(),
    ))
}

#[test]
fn parse_bytes() {
    let bytes: [u8; 13] = [
        0x63, 0x6f, 0x6d, 0x6d, 0x69, 0x74, 0x20, 0x34, 0x00, 0x74, 0x72, 0x65, 0x65,
    ];
    let data = wyag::decoding::parse_bytes(&bytes).expect("Byte parsing error: ");
    let obj_type = type_from_bytes(&data.obj_type).expect("Error parsing object type");
    assert!(obj_type == ObjectType::Commit);
    assert!(
        parse_decimal(&data.length).expect("Error parsing size") == 4,
        "data length {:?}",
        data.length
    );
    assert!(data.content == b"tree".to_vec());
}

#[test]
fn parse_data_as_bytes() {
    let bytes: [u8; 13] = [
        0x63, 0x6f, 0x6d, 0x6d, 0x69, 0x74, 0x20, 0x34, 0x00, 0x74, 0x72, 0x65, 0x65,
    ];
    let data = wyag::decoding::parse_bytes(&bytes).expect("Byte parsing error: ");
    let obj_type = type_from_bytes(&data.obj_type).expect("Error parsing object type");
    assert!(obj_type == ObjectType::Commit);
    assert!(
        parse_decimal(&data.length).expect("Error parsing size") == 4,
        "data length {:?}",
        data.length
    );
    assert!(data.content == b"tree".to_vec());
}

#[test]
fn size_mismatch_reported_before_type_lookup() {
    // length says 1, content has 2 bytes; the unknown type name "X" is not
    // reached because the size check comes first
    let repo = test_repo();
    let res = bytes_to_object(b"X 1\0ab", &repo);
    assert!(matches!(res, Err(ObjectParseError::ObjectWrongSize())));
}

#[test]
fn missing_space_is_type_delimiter_error() {
    let repo = test_repo();
    let res = bytes_to_object(b"blob4\0tree", &repo);
    assert!(matches!(res, Err(ObjectParseError::TypeNotFound())));
}

#[test]
fn unknown_type_name_is_reported_with_the_name() {
    let repo = test_repo();
    let res = bytes_to_object(b"oddtype 1\0a", &repo);
    match res {
        Err(ObjectParseError::ObjectTypeNotRecognized(name)) => {
            assert_eq!(name, b"oddtype".to_vec());
        }
        other => panic!("expected unrecognized type, got {:?}", other.map(|o| o.kind)),
    }
}

#[test]
fn missing_nul_is_length_delimiter_error() {
    let repo = test_repo();
    let res = bytes_to_object(b"blob 4tree", &repo);
    assert!(matches!(res, Err(ObjectParseError::SizeNotFound())));
}

#[test]
fn non_numeric_length_is_rejected() {
    let repo = test_repo();
    let res = bytes_to_object(b"blob x\0a", &repo);
    assert!(matches!(res, Err(ObjectParseError::SizeNotNumber())));
    let res = bytes_to_object(b"blob +1\0a", &repo);
    assert!(matches!(res, Err(ObjectParseError::SizeNotNumber())));
}

#[test]
fn type_names_match_case_insensitively() {
    let repo = test_repo();
    let obj = bytes_to_object(b"BLOB 2\0hi", &repo).expect("decode failed");
    assert!(*obj.kind() == ObjectType::Blob);
    assert!(parse_object_type("Tree").unwrap() == ObjectType::Tree);
    assert!(parse_object_type("commit").unwrap() == ObjectType::Commit);
    let err = parse_object_type("branch").unwrap_err();
    assert_eq!(err.name, "branch");
}

#[test]
fn encode_produces_the_canonical_record() {
    let repo = test_repo();
    let obj = GitObject::new(ObjectType::Blob, b"hello".to_vec(), &repo);
    let record = object_file_format(&obj).expect("encode failed");
    assert_eq!(record, b"blob 5\0hello".to_vec());
}

#[test]
fn encode_refuses_kinds_without_a_body_layout() {
    let repo = test_repo();
    let obj = GitObject::new(ObjectType::Tree, b"x".to_vec(), &repo);
    assert!(object_file_format(&obj).is_err());
    assert!(obj.get_hash().is_err());
}

#[test]
fn decode_inverts_encode() {
    // round trip: decode(encode(blob c)) gives back content c
    let repo = test_repo();
    let contents: [&[u8]; 4] = [b"", b"a", b"Not real content", b"with \0 and space"];
    for content in contents.iter() {
        let obj = GitObject::new(ObjectType::Blob, content.to_vec(), &repo);
        let record = object_file_format(&obj).expect("encode failed");
        let back = bytes_to_object(&record, &repo).expect("decode failed");
        assert!(*back.kind() == ObjectType::Blob);
        assert_eq!(back.content(), *content);
    }
}

#[test]
fn serialize_and_deserialize_cover_only_blobs() {
    let repo = test_repo();
    let mut obj = GitObject::new(ObjectType::Blob, b"old".to_vec(), &repo);
    assert_eq!(obj.serialize().unwrap(), b"old");
    obj.deserialize(b"new".to_vec()).unwrap();
    assert_eq!(obj.content(), b"new");
    let mut tree = GitObject::new(ObjectType::Commit, b"x".to_vec(), &repo);
    assert!(tree.serialize().is_err());
    assert!(tree.deserialize(b"y".to_vec()).is_err());
}

#[test]
fn decimal_numerals_render_and_parse() {
    assert_eq!(usize_to_dec(0), b"0".to_vec());
    assert_eq!(usize_to_dec(16), b"16".to_vec());
    assert_eq!(usize_to_dec(90210), b"90210".to_vec());
    assert_eq!(parse_decimal(b"0"), Some(0));
    assert_eq!(parse_decimal(b"16"), Some(16));
    assert_eq!(parse_decimal(b"0016"), Some(16));
    assert_eq!(parse_decimal(b""), None);
    assert_eq!(parse_decimal(b"1x"), None);
    assert_eq!(parse_decimal(b"99999999999999999999999999999999"), None);
}
