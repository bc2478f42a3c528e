//! The metadata service: ownership checks at creation, the dual filter on
//! lookup, owner-scoped listings and updates, error bodies, and the small
//! building blocks around them.

use docstore::api::{original_name_for, register_user};
use docstore::db::Database;
use docstore::dto::{
    CreateFileDto, CreateFolderDto, CreateResponseDto, QueryParams, RegisterUserDto,
};
use docstore::error::ServiceError;
use docstore::file_store::FileStore;
use docstore::files_service::{create_file, get_all_files, get_file, update_file};
use docstore::folders_service::create_folder;
use docstore::numeral::{parse_decimal, u32_to_decimal};

fn two_users() -> (Database, FileStore, i32, i32) {
    let mut db = Database::new();
    let mut store = FileStore::new("base".to_string());
    for (name, pw) in [("alice", "pw1"), ("bob", "pw2")] {
        register_user(
            &mut db,
            &mut store,
            RegisterUserDto {
                username: name.to_string(),
                email: format!("{}@example.com", name),
                password: pw.to_string(),
            },
        )
        .unwrap();
    }
    (db, store, 1, 2)
}

fn root_of(db: &Database, user_id: i32) -> String {
    docstore::auth_service::get_user(db, user_id).unwrap().folder_id
}

fn file_dto(folder: &str) -> CreateFileDto {
    CreateFileDto {
        access_level: 0,
        title: "t".to_string(),
        folder_id: folder.to_string(),
        media_type: "text/plain".to_string(),
        description: None,
    }
}

#[test]
fn create_file_rejects_a_folder_the_caller_does_not_own() {
    let (mut db, _store, alice, bob) = two_users();
    let alice_root = root_of(&db, alice);
    // bob names alice's root folder: rejected as absent-for-him
    match create_file(&mut db, file_dto(alice_root.as_str()), bob) {
        Err(ServiceError::NotFound(_)) => {}
        other => panic!("expected NotFound, got {:?}", other),
    }
    // a made-up folder id is rejected too
    assert!(create_file(&mut db, file_dto("no-such-folder"), alice).is_err());
    // alice's own root is accepted
    assert!(create_file(&mut db, file_dto(alice_root.as_str()), alice).is_ok());
}

#[test]
fn get_file_needs_both_id_and_owner() {
    let (mut db, _store, alice, bob) = two_users();
    let alice_root = root_of(&db, alice);
    let id = create_file(&mut db, file_dto(alice_root.as_str()), alice).unwrap();
    assert!(get_file(&db, &id, alice).is_ok());
    // the exact id under the wrong owner answers NotFound
    assert!(matches!(get_file(&db, &id, bob), Err(ServiceError::NotFound(_))));
    assert!(matches!(
        get_file(&db, &"missing".to_string(), alice),
        Err(ServiceError::NotFound(_))
    ));
}

#[test]
fn listing_is_owner_scoped_and_folder_filtered() {
    let (mut db, _store, alice, bob) = two_users();
    let alice_root = root_of(&db, alice);
    let bob_root = root_of(&db, bob);
    let sub = create_folder(
        &mut db,
        CreateFolderDto {
            title: "sub".to_string(),
            parent_folder_id: alice_root.clone(),
            description: None,
        },
        alice,
    )
    .unwrap();
    let in_root = create_file(&mut db, file_dto(alice_root.as_str()), alice).unwrap();
    let in_sub = create_file(&mut db, file_dto(sub.as_str()), alice).unwrap();
    create_file(&mut db, file_dto(bob_root.as_str()), bob).unwrap();

    let all = get_all_files(&db, alice, QueryParams { folder_id: None }).unwrap();
    let mut ids: Vec<String> = all.iter().map(|f| f.id.clone()).collect();
    ids.sort();
    let mut expect = vec![in_root.clone(), in_sub.clone()];
    expect.sort();
    assert_eq!(ids, expect);
    for f in &all {
        assert_eq!(f.owner_id, alice);
    }

    let only_sub = get_all_files(&db, alice, QueryParams { folder_id: Some(sub.clone()) }).unwrap();
    assert_eq!(only_sub.len(), 1);
    assert_eq!(only_sub[0].id, in_sub);
}

#[test]
fn update_by_non_owner_affects_zero_rows() {
    let (mut db, _store, alice, bob) = two_users();
    let alice_root = root_of(&db, alice);
    let bob_root = root_of(&db, bob);
    let id = create_file(&mut db, file_dto(alice_root.as_str()), alice).unwrap();
    let mut rec = get_file(&db, &id, alice).unwrap();
    rec.title = "hijacked".to_string();
    rec.folder_id = bob_root;
    // bob updates nothing, even holding alice's exact record
    assert_eq!(update_file(&mut db, rec, bob, 99).unwrap(), 0);
    assert_eq!(get_file(&db, &id, alice).unwrap().title, "t");

    // alice's own update affects exactly her row and stamps the audit fields
    let mut mine = get_file(&db, &id, alice).unwrap();
    mine.title = "renamed".to_string();
    assert_eq!(update_file(&mut db, mine, alice, 99).unwrap(), 1);
    let after = get_file(&db, &id, alice).unwrap();
    assert_eq!(after.title, "renamed");
    assert_eq!(after.updated_at, Some(99));
    assert_eq!(after.updated_by, alice);
    assert_eq!(after.owner_id, alice);
}

#[test]
fn folder_creation_checks_the_parent_owner() {
    let (mut db, _store, alice, bob) = two_users();
    let alice_root = root_of(&db, alice);
    let dto = CreateFolderDto {
        title: "x".to_string(),
        parent_folder_id: alice_root,
        description: None,
    };
    assert!(matches!(
        create_folder(&mut db, dto.clone(), bob),
        Err(ServiceError::NotFound(_))
    ));
    assert!(create_folder(&mut db, dto, alice).is_ok());
}

#[test]
fn error_statuses_and_bodies() {
    assert_eq!(ServiceError::Unauthorized.status_code(), 401);
    assert_eq!(ServiceError::InvalidCredentials.status_code(), 401);
    assert_eq!(ServiceError::NotFound("x".to_string()).status_code(), 404);
    assert_eq!(ServiceError::Conflict("x".to_string()).status_code(), 409);
    assert_eq!(ServiceError::BadRequest("b".to_string()).status_code(), 400);
    assert_eq!(ServiceError::InternalServerError("i".to_string()).status_code(), 500);
    assert_eq!(
        ServiceError::Unauthorized.body_string(),
        "{\"error\":\"Unauthorized\"}"
    );
    assert_eq!(
        ServiceError::NotFound("file-9".to_string()).body_string(),
        "{\"error\":\"Object 'file-9' not Found\"}"
    );
    assert_eq!(
        ServiceError::BadRequest("bad".to_string()).body_string(),
        "{\"error\":\"bad\"}"
    );
    assert_eq!(
        ServiceError::InternalServerError("oops".to_string()).body_string(),
        "{\"error\":\"Internal Server Error - oops\"}"
    );
}

#[test]
fn creation_response_shapes() {
    let a = CreateResponseDto::ok();
    assert!(a.success && a.message.is_none() && a.id.is_none());
    let b = CreateResponseDto::ok_msg("done".to_string());
    assert!(b.success && b.message == Some("done".to_string()) && b.id.is_none());
    let c = CreateResponseDto::err("nope".to_string());
    assert!(!c.success && c.message == Some("nope".to_string()) && c.id.is_none());
    let d = CreateResponseDto::ok_with_id("id-1".to_string());
    assert!(d.success && d.message.is_none() && d.id == Some("id-1".to_string()));
}

#[test]
fn decimal_numerals_print_and_parse() {
    assert_eq!(u32_to_decimal(0), "0");
    assert_eq!(u32_to_decimal(42), "42");
    assert_eq!(u32_to_decimal(4_294_967_295), "4294967295");
    assert_eq!(parse_decimal("42"), Some(42));
    assert_eq!(parse_decimal("0"), Some(0));
    assert_eq!(parse_decimal("4294967295"), Some(4_294_967_295));
    assert_eq!(parse_decimal("4294967296"), None);
    assert_eq!(parse_decimal("007"), None);
    assert_eq!(parse_decimal(""), None);
    assert_eq!(parse_decimal("12a"), None);
    assert_eq!(parse_decimal("-1"), None);
}

#[test]
fn upload_filename_defaults() {
    assert_eq!(original_name_for(Some("a.txt".to_string())), "a.txt");
    assert_eq!(original_name_for(None), "unknown");
}
