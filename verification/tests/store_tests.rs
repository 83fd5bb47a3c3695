use configparser::ini::Ini;
use std::rc::Rc;
use wyag::decoding::ObjectParseError;
use wyag::git_object::{GitObject, ObjectType};
use wyag::git_repository::GitRepository;
use wyag::store::{object_file_location, read_stored, stored_record};

fn test_repo() -> Rc<GitRepository> {
    Rc::new(GitRepository::new(
        "/work".to_string(),
        "/work/.git".to_string(),
        Ini::new(),
    ))
}

#[test]
fn writing_a_blob_yields_its_address_and_path() {
    // the address and storage path follow from SHA-1 over
    // "blob 16\0Not real content"
    let repo = test_repo();
    let obj = GitObject::new(
        ObjectType::Blob,
        "Not real content".as_bytes().to_owned(),
        &repo,
    );
    let (address, _) = stored_record(&obj).expect("write failed");
    assert_eq!(address, "f704b93e1eb2c92ed45dd0403887f6869c776c8f");
    let path = object_file_location(&repo, &address);
    assert_eq!(
        path,
        "/work/.git/objects/f7/04b93e1eb2c92ed45dd0403887f6869c776c8f"
    );
}

#[test]
fn stored_bytes_are_compressed() {
    let repo = test_repo();
    let obj = GitObject::new(ObjectType::Blob, b"Not real content".to_vec(), &repo);
    let (_, bytes) = stored_record(&obj).expect("write failed");
    // a zlib stream, not the raw record
    assert_ne!(bytes, b"blob 16\0Not real content".to_vec());
    assert_eq!(bytes[0], 0x78);
}

#[test]
fn writing_twice_leaves_identical_bytes() {
    let repo = test_repo();
    let obj = GitObject::new(ObjectType::Blob, b"Not real content".to_vec(), &repo);
    let (a1, b1) = stored_record(&obj).expect("write failed");
    let (a2, b2) = stored_record(&obj).expect("write failed");
    assert_eq!(a1, a2);
    assert_eq!(b1, b2);
}

#[test]
fn reading_back_a_written_record_returns_the_same_object() {
    let repo = test_repo();
    let contents: [&[u8]; 3] = [b"", b"Not real content", b"binary \0\xff bytes"];
    for content in contents.iter() {
        let obj = GitObject::new(ObjectType::Blob, content.to_vec(), &repo);
        let (_, bytes) = stored_record(&obj).expect("write failed");
        let back = read_stored(&bytes, &repo).expect("read failed");
        assert!(*back.kind() == ObjectType::Blob);
        assert_eq!(back.content(), *content);
    }
}

#[test]
fn a_corrupt_stream_is_an_error_not_garbage() {
    let repo = test_repo();
    let res = read_stored(b"this is not a zlib stream", &repo);
    assert!(matches!(res, Err(ObjectParseError::IOError(_))));
    let obj = GitObject::new(ObjectType::Blob, b"payload".to_vec(), &repo);
    let (_, mut bytes) = stored_record(&obj).expect("write failed");
    bytes.truncate(bytes.len() - 3);
    assert!(read_stored(&bytes, &repo).is_err());
}

#[test]
fn non_blob_objects_cannot_be_written() {
    let repo = test_repo();
    let obj = GitObject::new(ObjectType::Tag, b"x".to_vec(), &repo);
    assert!(stored_record(&obj).is_err());
}
