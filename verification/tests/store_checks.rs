//! The content store and the path resolver: round trips, overwrites,
//! namespaces, and the injectivity that keeps tenants' paths apart.

use docstore::error::ServiceError;
use docstore::file_store::FileStore;
use docstore::path::build_full_path;

#[test]
fn upload_then_download_returns_exactly_the_bytes() {
    let mut store = FileStore::new("base".to_string());
    let path = "root-a".to_string();
    let name = "file-1".to_string();
    let chunks: Vec<Vec<u8>> = vec![vec![1, 2, 3], vec![], vec![4, 5]];
    store.save_file(&path, &name, &chunks).unwrap();
    let got = store.retrieve_file(path.clone(), name.clone()).unwrap();
    assert_eq!(got, vec![1, 2, 3, 4, 5]);
}

#[test]
fn zero_length_upload_stores_an_empty_object() {
    let mut store = FileStore::new("base".to_string());
    let path = "root-a".to_string();
    let name = "empty".to_string();
    let chunks: Vec<Vec<u8>> = vec![];
    store.save_file(&path, &name, &chunks).unwrap();
    assert_eq!(store.retrieve_file(path, name).unwrap(), Vec::<u8>::new());
}

#[test]
fn reupload_replaces_and_old_content_is_gone() {
    let mut store = FileStore::new("base".to_string());
    let path = "root-a".to_string();
    let name = "file-1".to_string();
    store.save_file(&path, &name, &vec![b"first".to_vec()]).unwrap();
    assert_eq!(store.retrieve_file(path.clone(), name.clone()).unwrap(), b"first".to_vec());
    store.save_file(&path, &name, &vec![b"second".to_vec()]).unwrap();
    let after = store.retrieve_file(path, name).unwrap();
    assert_eq!(after, b"second".to_vec());
    assert_ne!(after, b"first".to_vec());
}

#[test]
fn missing_object_reports_not_found() {
    let store = FileStore::new("base".to_string());
    match store.retrieve_file("root".to_string(), "nothing".to_string()) {
        Err(ServiceError::NotFound(_)) => {}
        other => panic!("expected NotFound, got {:?}", other),
    }
}

#[test]
fn listing_names_under_a_path() {
    let mut store = FileStore::new("base".to_string());
    store.save_file(&"p1".to_string(), &"a".to_string(), &vec![vec![1]]).unwrap();
    store.save_file(&"p1".to_string(), &"b".to_string(), &vec![vec![2]]).unwrap();
    store.save_file(&"p2".to_string(), &"c".to_string(), &vec![vec![3]]).unwrap();
    let mut names = store.list_file_names("p1".to_string());
    names.sort();
    assert_eq!(names, vec!["a".to_string(), "b".to_string()]);
    assert!(store.list_file_names("p3".to_string()).is_empty());
}

#[test]
fn namespace_creation_is_idempotent() {
    let mut store = FileStore::new("base".to_string());
    store.create_folder("ns-1".to_string()).unwrap();
    store.create_folder("ns-1".to_string()).unwrap();
    store.create_folder("ns-2".to_string()).unwrap();
    let names = store.list_folder_names("base".to_string());
    assert_eq!(names, vec!["ns-1".to_string(), "ns-2".to_string()]);
}

#[test]
fn path_resolution_root_and_subfolder() {
    // a file in the root folder resolves to the root itself
    assert_eq!(build_full_path("root-x", "root-x"), "root-x");
    // any other folder becomes a single extra segment
    assert_eq!(build_full_path("root-x", "folder-y"), "root-x/folder-y");
}

#[test]
fn distinct_roots_never_resolve_to_the_same_path() {
    // distinct users' namespaces stay apart, also in the corner where one
    // file sits in its root and the other does not
    let p1 = build_full_path("aaaa", "bbbb");
    let p2 = build_full_path("cccc", "bbbb");
    assert_ne!(p1, p2);
    let q1 = build_full_path("aaaa", "aaaa");
    let q2 = build_full_path("cccc", "aaaa");
    assert_ne!(q1, q2);
    let r1 = build_full_path("aaaa", "cccc");
    let r2 = build_full_path("cccc", "cccc");
    assert_ne!(r1, r2);
}
