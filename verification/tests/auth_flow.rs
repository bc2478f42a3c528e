//! End-to-end flows through the library: registration, login, folder and
//! file creation, upload and download, and tenant isolation between two
//! registered users.

use docstore::api::{
    download_file_contents, login_user, logout_cookie, register_user, upload_file_contents,
};
use docstore::auth_service::get_user;
use docstore::db::Database;
use docstore::dto::{
    CreateFileDto, CreateFolderDto, LoginRequestDto, QueryParams, RegisterUserDto,
};
use docstore::error::ServiceError;
use docstore::file_store::FileStore;
use docstore::files_service::{create_file, get_all_files, get_file};
use docstore::folders_service::{create_folder, get_all_folders_in_folder};
use docstore::token::validate_token;

fn register_dto(username: &str, password: &str) -> RegisterUserDto {
    RegisterUserDto {
        username: username.to_string(),
        email: format!("{}@example.com", username),
        password: password.to_string(),
    }
}

#[test]
fn register_then_conflict() {
    let mut db = Database::new();
    let mut store = FileStore::new("/tmp/store".to_string());
    assert!(register_user(&mut db, &mut store, register_dto("alice", "pw1")).is_ok());
    let again = register_user(&mut db, &mut store, register_dto("alice", "pw2"));
    match again {
        Err(ServiceError::Conflict(_)) => {}
        other => panic!("expected Conflict, got {:?}", other),
    }
    assert_eq!(again.unwrap_err().status_code(), 409);
}

#[test]
fn login_wrong_password_is_invalid_credentials() {
    let mut db = Database::new();
    let mut store = FileStore::new("base".to_string());
    register_user(&mut db, &mut store, register_dto("alice", "pw1")).unwrap();
    let secret = b"test-secret".to_vec();
    let r = login_user(
        &db,
        &secret,
        LoginRequestDto { username: "alice".to_string(), password: "wrong".to_string() },
        1_000,
        false,
    );
    match r {
        Err(ServiceError::InvalidCredentials) => {}
        other => panic!("expected InvalidCredentials, got {:?}", other.err()),
    }
}

#[test]
fn login_unknown_user_matches_wrong_password_error() {
    let db = Database::new();
    let secret = b"test-secret".to_vec();
    let r = login_user(
        &db,
        &secret,
        LoginRequestDto { username: "nobody".to_string(), password: "pw".to_string() },
        1_000,
        false,
    );
    let e = r.err().unwrap();
    assert_eq!(e, ServiceError::InvalidCredentials);
    assert_eq!(e.status_code(), 401);
}

#[test]
fn full_scenario_register_login_upload_download_and_isolation() {
    let mut db = Database::new();
    let mut store = FileStore::new("base".to_string());
    let secret = b"scenario-secret".to_vec();
    let now: u64 = 1_700_000_000;

    // register alice; registering her again conflicts
    register_user(&mut db, &mut store, register_dto("alice", "pw1")).unwrap();
    assert!(matches!(
        register_user(&mut db, &mut store, register_dto("alice", "pw1")),
        Err(ServiceError::Conflict(_))
    ));

    // a wrong password is rejected, the right one logs in and sets the cookie
    assert!(login_user(
        &db,
        &secret,
        LoginRequestDto { username: "alice".to_string(), password: "wrong".to_string() },
        now,
        false,
    )
    .is_err());
    let (resp, cookie) = login_user(
        &db,
        &secret,
        LoginRequestDto { username: "alice".to_string(), password: "pw1".to_string() },
        now,
        false,
    )
    .unwrap();
    assert_eq!(resp.status, "success");
    assert_eq!(cookie.name, "token");
    assert_eq!(cookie.path, "/");
    assert_eq!(cookie.max_age, 3600);
    assert!(cookie.http_only);
    assert_eq!(cookie.value, resp.token);

    // the token binds alice's identity
    let alice_id = validate_token(resp.token.as_str(), now + 10, &secret).unwrap();
    assert_eq!(Some(alice_id), resp.user.id);

    // her session resolves her public record
    let me = get_user(&db, alice_id).unwrap();
    assert_eq!(me.username, "alice");
    let alice_root = me.folder_id.clone();

    // create a folder under her root, and a file inside it
    let folder_id = create_folder(
        &mut db,
        CreateFolderDto {
            title: "docs".to_string(),
            parent_folder_id: alice_root.clone(),
            description: None,
        },
        alice_id,
    )
    .unwrap();
    let children = get_all_folders_in_folder(&db, alice_id, alice_root.clone()).unwrap();
    assert_eq!(children.len(), 1);
    assert_eq!(children[0].id, folder_id);

    let file_id = create_file(
        &mut db,
        CreateFileDto {
            access_level: 1,
            title: "notes".to_string(),
            folder_id: folder_id.clone(),
            media_type: "text/plain".to_string(),
            description: Some("ten bytes".to_string()),
        },
        alice_id,
    )
    .unwrap();

    // upload exactly ten bytes in two chunks, then download them back
    let chunks: Vec<Vec<u8>> = vec![b"0123".to_vec(), b"456789".to_vec()];
    upload_file_contents(
        &mut db,
        &mut store,
        alice_id,
        &file_id,
        "text/plain".to_string(),
        Some("notes.txt".to_string()),
        &chunks,
        now as i64,
    )
    .unwrap();
    let d = download_file_contents(&db, &store, alice_id, &file_id).unwrap();
    assert_eq!(d.content, b"0123456789".to_vec());
    // the reported media type and filename are the ones supplied at upload
    assert_eq!(d.media_type, "text/plain");
    assert_eq!(d.file_name, "notes.txt");

    // register bob; alice's exact file id answers him NotFound, nothing more
    register_user(&mut db, &mut store, register_dto("bob", "pw2")).unwrap();
    let (bob_resp, _) = login_user(
        &db,
        &secret,
        LoginRequestDto { username: "bob".to_string(), password: "pw2".to_string() },
        now,
        false,
    )
    .unwrap();
    let bob_id = validate_token(bob_resp.token.as_str(), now + 10, &secret).unwrap();
    assert_ne!(bob_id, alice_id);
    match get_file(&db, &file_id, bob_id) {
        Err(ServiceError::NotFound(_)) => {}
        other => panic!("expected NotFound for bob, got {:?}", other),
    }
    assert!(matches!(
        download_file_contents(&db, &store, bob_id, &file_id),
        Err(ServiceError::NotFound(_))
    ));
    let bob_files = get_all_files(&db, bob_id, QueryParams { folder_id: None }).unwrap();
    assert!(bob_files.is_empty());

    // logout clears the cookie
    let out = logout_cookie();
    assert_eq!(out.name, "token");
    assert_eq!(out.value, "");
    assert_eq!(out.max_age, -1);
}

#[test]
fn reupload_through_the_api_replaces_content_and_metadata() {
    let mut db = Database::new();
    let mut store = FileStore::new("base".to_string());
    register_user(&mut db, &mut store, register_dto("alice", "pw1")).unwrap();
    let alice = 1;
    let root = get_user(&db, alice).unwrap().folder_id;
    let file_id = create_file(
        &mut db,
        CreateFileDto {
            access_level: 0,
            title: "t".to_string(),
            folder_id: root,
            media_type: "text/plain".to_string(),
            description: None,
        },
        alice,
    )
    .unwrap();
    upload_file_contents(
        &mut db,
        &mut store,
        alice,
        &file_id,
        "application/x-v1".to_string(),
        Some("v1.bin".to_string()),
        &vec![b"first".to_vec()],
        10,
    )
    .unwrap();
    let before = download_file_contents(&db, &store, alice, &file_id).unwrap();
    assert_eq!(before.content, b"first".to_vec());
    assert_eq!(before.media_type, "application/x-v1");
    assert_eq!(before.file_name, "v1.bin");

    upload_file_contents(
        &mut db,
        &mut store,
        alice,
        &file_id,
        "application/x-v2".to_string(),
        Some("v2.bin".to_string()),
        &vec![b"second".to_vec()],
        20,
    )
    .unwrap();
    let after = download_file_contents(&db, &store, alice, &file_id).unwrap();
    assert_eq!(after.content, b"second".to_vec());
    assert_ne!(after.content, before.content);
    assert_eq!(after.media_type, "application/x-v2");
    assert_eq!(after.file_name, "v2.bin");
}

#[test]
fn inactive_accounts_can_be_kept_out_by_policy() {
    let mut db = Database::new();
    let mut store = FileStore::new("base".to_string());
    register_user(&mut db, &mut store, register_dto("carol", "pw")).unwrap();
    let secret = b"s".to_vec();
    // accounts start inactive: the active-only policy rejects the login,
    // the permissive policy admits it
    assert!(login_user(
        &db,
        &secret,
        LoginRequestDto { username: "carol".to_string(), password: "pw".to_string() },
        5,
        true,
    )
    .is_err());
    assert!(login_user(
        &db,
        &secret,
        LoginRequestDto { username: "carol".to_string(), password: "pw".to_string() },
        5,
        false,
    )
    .is_ok());
}
