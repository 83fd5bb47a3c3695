use configparser::ini::Ini;
use std::rc::Rc;
use wyag::decoding::ObjectParseError;
use wyag::git_object::{Blob, GitObject, ObjectError, ObjectType, Tag, Tree};
use wyag::git_repository::{GitRepository, RepositoryError};

#[test]
fn kind_names_are_the_wire_names() {
    assert_eq!(ObjectType::Commit.to_string(), "commit");
    assert_eq!(ObjectType::Tree.to_string(), "tree");
    assert_eq!(ObjectType::Blob.to_string(), "blob");
    assert_eq!(ObjectType::Tag.to_string(), "tag");
}

#[test]
fn kind_markers_construct() {
    let _ = Tree::new();
    let _ = Blob::new();
    let _ = Tag::new();
    assert!(Blob::new() == Blob::new());
}

#[test]
fn errors_describe_themselves() {
    assert_eq!(
        ObjectParseError::ObjectWrongSize().message(),
        "Object was not the size indicated in file"
    );
    assert_eq!(
        ObjectParseError::IOError("gone".to_string()).message(),
        "Could not open file for reading: gone"
    );
    assert_eq!(
        ObjectError::FileParse(ObjectParseError::TypeNotFound()).message(),
        "Unable to parse file: Ascii space not found at the end of object type"
    );
    assert_eq!(
        ObjectError::NotFound().message(),
        "No object stored at the derived path"
    );
    assert_eq!(
        ObjectError::NotImplemented().message(),
        "Operation is not implemented for this object kind"
    );
    assert_eq!(
        RepositoryError::NoGitDirectory().message(),
        "Git directory not found"
    );
    assert_eq!(
        RepositoryError::ConfigLoadFail("line 1".to_string()).message(),
        "Failed to load config: line 1"
    );
}

#[test]
fn objects_keep_their_repository_handle() {
    let repo = Rc::new(GitRepository::new(
        "/work".to_string(),
        "/work/.git".to_string(),
        Ini::new(),
    ));
    let obj = GitObject::new(ObjectType::Blob, b"payload".to_vec(), &repo);
    assert_eq!(obj.repo().worktree(), "/work");
    assert_eq!(obj.repo().gitdir(), "/work/.git");
    assert_eq!(obj.content(), b"payload");
    assert!(*obj.kind() == ObjectType::Blob);
}
