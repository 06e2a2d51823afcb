use command_bridge::error::FsError;
use command_bridge::fs::FileSystem;
use command_bridge::node::FsNode;

fn text(s: &str) -> FsNode {
    FsNode::TextFile { content: String::from(s), denied: false }
}

#[test]
fn create_then_exists() {
    let mut f = FileSystem::new();
    assert!(!f.file_exists(String::from("fresh")));
    assert!(f.create_directory(String::from("fresh")).is_ok());
    assert!(f.file_exists(String::from("fresh")));
}

#[test]
fn create_makes_missing_ancestors() {
    let mut f = FileSystem::new();
    assert!(f.create_directory(String::from("a/b/c")).is_ok());
    assert!(f.file_exists(String::from("a")));
    assert!(f.file_exists(String::from("a/b")));
    assert!(f.file_exists(String::from("a/b/c")));
}

#[test]
fn create_is_idempotent() {
    let mut f = FileSystem::new();
    assert!(f.create_directory(String::from("dir")).is_ok());
    assert!(f.create_directory(String::from("dir")).is_ok());
    assert!(f.file_exists(String::from("dir")));
}

#[test]
fn create_over_file_already_exists() {
    let mut f = FileSystem::new();
    f.place(String::from("spot"), text("x"));
    assert_eq!(f.create_directory(String::from("spot")), Err(FsError::AlreadyExists));
}

#[test]
fn create_under_file_is_not_a_directory() {
    let mut f = FileSystem::new();
    f.place(String::from("spot"), text("x"));
    assert_eq!(
        f.create_directory(String::from("spot/inner")),
        Err(FsError::Other(String::from("not a directory")))
    );
}

#[test]
fn create_empty_path_fails() {
    let mut f = FileSystem::new();
    assert_eq!(f.create_directory(String::new()), Err(FsError::NotFound));
}

#[test]
fn delete_missing_fails() {
    let mut f = FileSystem::new();
    assert_eq!(f.delete_file(String::from("nothing")), Err(FsError::NotFound));
}

#[test]
fn delete_then_gone() {
    let mut f = FileSystem::new();
    f.place(String::from("doc"), text("body"));
    assert!(f.delete_file(String::from("doc")).is_ok());
    assert!(!f.file_exists(String::from("doc")));
}

#[test]
fn delete_directory_fails() {
    let mut f = FileSystem::new();
    assert!(f.create_directory(String::from("dir")).is_ok());
    assert_eq!(
        f.delete_file(String::from("dir")),
        Err(FsError::Other(String::from("is a directory")))
    );
}

#[test]
fn copy_preserves_size() {
    let mut f = FileSystem::new();
    f.place(String::from("src"), text("seven77"));
    assert!(f.copy_file(String::from("src"), String::from("dst")).is_ok());
    let src_size = f.get_file_size(String::from("src")).unwrap();
    let dst_size = f.get_file_size(String::from("dst")).unwrap();
    assert_eq!(src_size, dst_size);
    assert_eq!(dst_size, 7);
}

#[test]
fn copy_overwrites_destination() {
    let mut f = FileSystem::new();
    f.place(String::from("src"), text("new text"));
    f.place(String::from("dst"), text("old"));
    assert!(f.copy_file(String::from("src"), String::from("dst")).is_ok());
    assert_eq!(f.read_from_file(String::from("dst")), Ok(String::from("new text")));
}

#[test]
fn copy_missing_source_fails() {
    let mut f = FileSystem::new();
    assert_eq!(
        f.copy_file(String::from("ghost"), String::from("dst")),
        Err(FsError::NotFound)
    );
}

#[test]
fn copy_onto_directory_fails() {
    let mut f = FileSystem::new();
    f.place(String::from("src"), text("x"));
    assert!(f.create_directory(String::from("dir")).is_ok());
    assert_eq!(
        f.copy_file(String::from("src"), String::from("dir")),
        Err(FsError::Other(String::from("is a directory")))
    );
}

#[test]
fn list_counts_children() {
    let mut f = FileSystem::new();
    assert!(f.create_directory(String::from("d")).is_ok());
    f.place(String::from("d/one"), text("1"));
    f.place(String::from("d/two"), text("2"));
    f.place(String::from("d/sub/deep"), text("3"));
    f.place(String::from("elsewhere"), text("4"));
    let mut listing = f.list_directory(String::from("d")).unwrap();
    listing.sort();
    assert_eq!(listing, vec![String::from("d/one"), String::from("d/two")]);
}

#[test]
fn list_missing_directory_fails() {
    let f = FileSystem::new();
    assert_eq!(f.list_directory(String::from("nowhere")), Err(FsError::NotFound));
}

#[test]
fn list_file_fails() {
    let mut f = FileSystem::new();
    f.place(String::from("plain"), text("x"));
    assert_eq!(
        f.list_directory(String::from("plain")),
        Err(FsError::Other(String::from("not a directory")))
    );
}

#[test]
fn save_then_read_round_trip() {
    let mut f = FileSystem::new();
    let content = String::from("line one\nline two\n");
    assert!(f.save_to_file(String::from("notes.txt"), content.clone()).is_ok());
    assert_eq!(f.read_from_file(String::from("notes.txt")), Ok(content));
}

#[test]
fn save_overwrites_previous_content() {
    let mut f = FileSystem::new();
    assert!(f.save_to_file(String::from("n"), String::from("first")).is_ok());
    assert!(f.save_to_file(String::from("n"), String::from("second")).is_ok());
    assert_eq!(f.read_from_file(String::from("n")), Ok(String::from("second")));
}

#[test]
fn save_onto_directory_fails() {
    let mut f = FileSystem::new();
    assert!(f.create_directory(String::from("dir")).is_ok());
    assert_eq!(
        f.save_to_file(String::from("dir"), String::from("x")),
        Err(FsError::Other(String::from("is a directory")))
    );
}

#[test]
fn read_missing_fails() {
    let f = FileSystem::new();
    assert_eq!(f.read_from_file(String::from("ghost")), Err(FsError::NotFound));
}

#[test]
fn read_binary_is_encoding_error() {
    let mut f = FileSystem::new();
    f.place(String::from("blob"), FsNode::BinaryFile { size: 16, denied: false });
    assert_eq!(f.read_from_file(String::from("blob")), Err(FsError::InvalidEncoding));
}

#[test]
fn denied_path_reads_as_absent_but_is_not() {
    let mut f = FileSystem::new();
    f.place(String::from("locked"), FsNode::TextFile {
        content: String::from("secret"),
        denied: true,
    });
    // The path exists but is permission-denied: file_exists must report
    // plain false, not a failure...
    assert!(!f.file_exists(String::from("locked")));
    // ...while a metadata lookup tells inaccessible apart from missing.
    assert_eq!(f.get_file_size(String::from("locked")), Err(FsError::PermissionDenied));
    assert_eq!(f.get_file_size(String::from("absent")), Err(FsError::NotFound));
    assert_eq!(f.read_from_file(String::from("locked")), Err(FsError::PermissionDenied));
    assert_eq!(f.delete_file(String::from("locked")), Err(FsError::PermissionDenied));
}

#[test]
fn denied_nodes_block_the_other_operations() {
    let mut f = FileSystem::new();
    f.place(String::from("vault"), FsNode::Directory { denied: true });
    f.place(String::from("vault/file"), FsNode::TextFile {
        content: String::from("x"),
        denied: true,
    });
    f.place(String::from("open"), text("y"));
    assert_eq!(f.list_directory(String::from("vault")), Err(FsError::PermissionDenied));
    assert_eq!(
        f.create_directory(String::from("vault/sub")),
        Err(FsError::PermissionDenied)
    );
    assert_eq!(
        f.copy_file(String::from("vault/file"), String::from("out")),
        Err(FsError::PermissionDenied)
    );
    assert_eq!(
        f.copy_file(String::from("open"), String::from("vault/file")),
        Err(FsError::PermissionDenied)
    );
    assert_eq!(
        f.save_to_file(String::from("vault/file"), String::from("z")),
        Err(FsError::PermissionDenied)
    );
}

#[test]
fn size_of_binary_file() {
    let mut f = FileSystem::new();
    f.place(String::from("blob"), FsNode::BinaryFile { size: 1024, denied: false });
    assert_eq!(f.get_file_size(String::from("blob")), Ok(1024));
}
