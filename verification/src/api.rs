//! Request-level orchestration: registration, login, logout, the access check a
//! dispatcher runs before any handler, and the upload and download flows
//! that thread the authenticated identity through the metadata store, the
//! path resolver and the content store. The application context that
//! bundles the shared state lives here too.

use crate::auth_service::{
    authenticates, create_user, find_user_by_username_and_password, get_user, is_exists,
    user_public,
};
use crate::db::{folder_owned_by, has_username, root_id_taken, Database, DbView};
use crate::dto::{
    DownloadResult, FileDto, LoginRequestDto, LoginResponseDto, NewUserDto, RegisterUserDto,
    SessionCookie, UserDto,
};
use crate::dto::opt_str_view;
use crate::error::ServiceError;
use crate::file_store::FileStore;
use crate::files_service::{file_matches, file_query_matches, get_file, update_file};
use crate::folders_service::folder_query_matches;
use crate::ids::{is_generated_id, lemma_generated_id_slash_free};
use crate::numeral::{dec_value, is_canonical_dec};
use crate::password::{argon2_verifies, is_phc_string};
use crate::path::{build_full_path, lemma_resolved_path_injective, resolved_path};
use crate::token::{decoded_claims, issue_token, TOKEN_LIFETIME_SECS};
use vstd::prelude::*;

verus! {

/// The startup configuration the components share.
#[derive(Debug, Clone, PartialEq)]
pub struct Config {
    pub database_url: String,
    pub jwt_secret: String,
    pub _jwt_expires_in: String,
    pub _jwt_maxage: i32,
}

/// The application context: the record store, the configuration, the
/// content store and the deployment mode, bundled once at startup and
/// handed to every component — no ambient globals.
pub struct AppState {
    pub db: Database,
    pub config: Config,
    pub storage: FileStore,
    pub prod_mode: bool,
}

impl AppState {
    pub fn new(db: Database, config: Config, storage: FileStore, prod_mode: bool) -> (s: AppState)
        ensures
            s.db == db,
            s.config == config,
            s.storage == storage,
            s.prod_mode == prod_mode,
    {
        AppState { db, config, storage, prod_mode }
    }

    pub fn get_config(&self) -> (c: &Config)
        ensures
            *c == self.config,
    {
        &self.config
    }

    pub fn is_prod_mode(&self) -> (b: bool)
        ensures
            b == self.prod_mode,
    {
        self.prod_mode
    }

    pub fn get_storage_service(&self) -> (s: &FileStore)
        ensures
            *s == self.storage,
    {
        &self.storage
    }
}

/// Register a new user: `Conflict` exactly when the username is taken;
/// otherwise the user row is persisted inactive-by-default and the root
/// storage namespace is created alongside it.
pub fn register_user(db: &mut Database, store: &mut FileStore, body: RegisterUserDto) -> (r:
    Result<(), ServiceError>)
    requires
        old(db).wf(),
        old(store).wf(),
    ensures
        final(db).wf(),
        final(store).wf(),
        final(store)@.objects == old(store)@.objects,
        match r {
            Ok(()) => {
                &&& !has_username(old(db)@, body.username@)
                &&& exists|u: crate::dto::User|
                    {
                        &&& final(db)@.users == old(db)@.users.push(u)
                        &&& u.username@ == body.username@
                        &&& u.email_address@ == body.email@
                        &&& argon2_verifies(body.password@, u.password@)
                        &&& is_phc_string(u.password@)
                        &&& is_generated_id(u.folder_id@)
                        &&& !u.active
                        &&& final(store)@.namespaces.contains(u.folder_id@)
                    }
            },
            Err(e) => {
                &&& final(db)@ == old(db)@
                &&& final(store)@.namespaces == old(store)@.namespaces
                &&& (e is Conflict <==> has_username(old(db)@, body.username@))
                &&& (e is Conflict || e is InternalServerError)
                &&& (e is InternalServerError ==> old(db)@.next_user_id >= i32::MAX || (
                exists|id: Seq<char>| is_generated_id(id) && root_id_taken(old(db)@, id)))
            },
        },
{
    if is_exists(db, body.username.clone()) {
        return Err(ServiceError::Conflict(body.username));
    }
    match create_user(
        db,
        store,
        NewUserDto {
            username: body.username,
            password: body.password,
            email_address: body.email,
        },
    ) {
        Ok(_) => Ok(()),
        Err(e) => Err(e),
    }
}

/// Log a user in: authenticate the credentials, mint a sixty-minute token
/// whose subject is the user id, and shape the session cookie the
/// transport layer should set. Every failure is the undifferentiated
/// `InvalidCredentials`.
pub fn login_user(
    db: &Database,
    secret: &[u8],
    body: LoginRequestDto,
    now: u64,
    require_active: bool,
) -> (r: Result<(LoginResponseDto, SessionCookie), ServiceError>)
    requires
        db.wf(),
        now + TOKEN_LIFETIME_SECS <= u64::MAX,
    ensures
        match r {
            Ok((resp, cookie)) => {
                &&& exists|i: int|
                    0 <= i < db@.users.len() && authenticates(
                        #[trigger] db@.users[i],
                        body.username@,
                        body.password@,
                        require_active,
                    ) && resp.user == user_public(db@.users[i])
                &&& resp.status@ == "success"@
                &&& resp.token == cookie.value
                &&& cookie.name@ == "token"@
                &&& cookie.path@ == "/"@
                &&& cookie.max_age == TOKEN_LIFETIME_SECS as i64
                &&& cookie.http_only
                &&& resp.user.id is Some
                &&& exists|sub: Seq<char>|
                    is_canonical_dec(sub) && dec_value(sub) <= i32::MAX && Some(
                        dec_value(sub) as i32,
                    ) == resp.user.id && decoded_claims(resp.token@, secret@) == Some(
                        (sub, now, (now + TOKEN_LIFETIME_SECS) as u64),
                    )
            },
            Err(e) => e == ServiceError::InvalidCredentials && forall|i: int|
                0 <= i < db@.users.len() ==> !authenticates(
                    #[trigger] db@.users[i],
                    body.username@,
                    body.password@,
                    require_active,
                ),
        },
{
    let user = match find_user_by_username_and_password(
        db,
        body.username,
        body.password,
        require_active,
    ) {
        Ok(u) => u,
        Err(e) => {
            return Err(e);
        },
    };
    let user_id = match user.id {
        Some(id) => id,
        None => {
            proof {
                let i = choose|i: int|
                    0 <= i < db@.users.len() && authenticates(
                        #[trigger] db@.users[i],
                        body.username@,
                        body.password@,
                        require_active,
                    ) && user == user_public(db@.users[i]);
                assert(db@.users[i].id is Some);
            }
            vstd::pervasive::unreached()
        },
    };
    proof {
        let i = choose|i: int|
            0 <= i < db@.users.len() && authenticates(
                #[trigger] db@.users[i],
                body.username@,
                body.password@,
                require_active,
            ) && user == user_public(db@.users[i]);
        assert(1 <= db@.users[i].id->0);
    }
    let token = issue_token(user_id, secret, now);
    let cookie = SessionCookie {
        name: "token".to_owned(),
        value: token.clone(),
        path: "/".to_owned(),
        max_age: 3600,
        http_only: true,
    };
    let resp = LoginResponseDto { status: "success".to_owned(), token, user };
    Ok((resp, cookie))
}

/// The cookie that ends a session: same name and path, empty value, and a
/// negative Max-Age so the client discards it.
pub fn logout_cookie() -> (c: SessionCookie)
    ensures
        c.name@ == "token"@,
        c.value@ == Seq::<char>::empty(),
        c.path@ == "/"@,
        c.max_age == -1,
        c.http_only,
{
    SessionCookie {
        name: "token".to_owned(),
        value: String::new(),
        path: "/".to_owned(),
        max_age: -1,
        http_only: true,
    }
}

/// The original filename recorded at upload time, defaulted when the
/// upload named none.
pub fn original_name_for(filename: Option<String>) -> (r: String)
    ensures
        r@ == original_name_view(opt_str_view(filename)),
{
    match filename {
        Some(s) => s,
        None => "unknown".to_owned(),
    }
}

/// The spec-level original filename recorded for an upload.
pub open spec fn original_name_view(filename: Option<Seq<char>>) -> Seq<char> {
    match filename {
        Some(s) => s,
        None => "unknown"@,
    }
}

/// Upload content to a file the caller owns: resolve the on-disk path from
/// the caller's root folder and the file's folder, stream the chunks into
/// the content store, and only after the whole write has succeeded patch
/// the supplied media type and original filename onto the metadata row. A
/// failure leaves both stores exactly as they were — no success is ever
/// reported over a partial write, and no metadata is stamped for one.
pub fn upload_file_contents(
    db: &mut Database,
    store: &mut FileStore,
    user_id: i32,
    file_id: &String,
    media_type: String,
    filename: Option<String>,
    chunks: &Vec<Vec<u8>>,
    now: i64,
) -> (r: Result<(), ServiceError>)
    requires
        old(db).wf(),
        old(store).wf(),
    ensures
        final(db).wf(),
        final(store).wf(),
        final(db)@.users == old(db)@.users,
        final(db)@.folders == old(db)@.folders,
        final(db)@.files.len() == old(db)@.files.len(),
        forall|j: int|
            0 <= j < old(db)@.files.len() && (#[trigger] old(db)@.files[j]).owner_id != user_id
                ==> final(db)@.files[j] == old(db)@.files[j],
        match r {
            Ok(()) => exists|ui: int, fi: int|
                {
                    &&& 0 <= ui < old(db)@.users.len()
                    &&& 0 <= fi < old(db)@.files.len()
                    &&& (#[trigger] old(db)@.users[ui]).id == Some(user_id)
                    &&& file_matches(#[trigger] old(db)@.files[fi], file_id@, user_id)
                    &&& final(store)@.objects == old(store)@.objects.insert(
                        (
                            resolved_path(
                                old(db)@.users[ui].folder_id@,
                                old(db)@.files[fi].folder_id@,
                            ),
                            file_id@,
                        ),
                        chunks.deep_view().flatten(),
                    )
                    &&& ({
                        let orig = old(db)@.files[fi];
                        let p = final(db)@.files[fi];
                        &&& p.id == orig.id
                        &&& p.owner_id == orig.owner_id
                        &&& p.access_level == orig.access_level
                        &&& p.title == orig.title
                        &&& p.folder_id == orig.folder_id
                        &&& p.description == orig.description
                        &&& p.created_at == orig.created_at
                        &&& p.created_by == orig.created_by
                        &&& p.active == orig.active
                        &&& p.media_type == Some(media_type)
                        &&& p.orginal_filename matches Some(nm) && nm@ == original_name_view(
                            opt_str_view(filename),
                        )
                        &&& p.updated_at == Some(now)
                        &&& p.updated_by == user_id
                    })
                    &&& forall|j: int|
                        0 <= j < old(db)@.files.len() && j != fi ==> final(db)@.files[j] == old(
                            db,
                        )@.files[j]
                },
            Err(e) => {
                &&& e is NotFound
                &&& final(db)@ == old(db)@
                &&& final(store)@.objects == old(store)@.objects
                &&& final(store)@.namespaces == old(store)@.namespaces
                &&& ((forall|i: int|
                    0 <= i < old(db)@.users.len() ==> (#[trigger] old(db)@.users[i]).id != Some(
                        user_id,
                    )) || (forall|i: int|
                    0 <= i < old(db)@.files.len() ==> !file_matches(
                        #[trigger] old(db)@.files[i],
                        file_id@,
                        user_id,
                    )))
            },
        },
{
    let user = match get_user(db, user_id) {
        Ok(u) => u,
        Err(e) => {
            return Err(e);
        },
    };
    let mut file = match get_file(db, file_id, user_id) {
        Ok(f) => f,
        Err(e) => {
            return Err(e);
        },
    };
    let orig_name = original_name_for(filename);
    let full_path = build_full_path(user.folder_id.as_str(), file.folder_id.as_str());
    let ghost fi = choose|fi: int|
        0 <= fi < db@.files.len() && #[trigger] db@.files[fi] == file && file_matches(
            file,
            file_id@,
            user_id,
        );
    let ghost ui = choose|ui: int|
        0 <= ui < db@.users.len() && (#[trigger] db@.users[ui]).id == Some(user_id) && user
            == user_public(db@.users[ui]);
    match store.save_file(&full_path, file_id, chunks) {
        Ok(()) => {},
        Err(e) => {
            return Err(e);
        },
    }
    file.media_type = Some(media_type);
    file.orginal_filename = Some(orig_name);
    let ghost mid = db@;
    let ghost patched = file;
    match update_file(db, file, user_id, now) {
        Ok(count) => {
            proof {
                assert(folder_owned_by(mid, patched.folder_id@, user_id)) by {
                    assert(mid.files[fi].folder_id == patched.folder_id);
                }
                assert(count == 1);
                let i = choose|i: int|
                    {
                        &&& 0 <= i < mid.files.len()
                        &&& file_matches(#[trigger] mid.files[i], patched.id@, user_id)
                        &&& db@.files == mid.files.update(
                            i,
                            crate::files_service::updated_file(mid.files[i], patched, user_id, now),
                        )
                    };
                assert(i == fi) by {
                    if i != fi {
                        assert(mid.files[i].id@ != mid.files[fi].id@);
                    }
                }
            }
            Ok(())
        },
        Err(e) => Err(e),
    }
}

/// Download a file the caller owns: the same dual filter and the same path
/// resolution as the upload side, then the whole stored content together
/// with the media type and original filename recorded at upload time.
/// `NotFound` answers exactly three situations: no user carries the id, no
/// file matches both the file id and the caller, or the resolved key holds
/// no content — after a successful upload none of the three can hold.
pub fn download_file_contents(
    db: &Database,
    store: &FileStore,
    user_id: i32,
    file_id: &String,
) -> (r: Result<DownloadResult, ServiceError>)
    requires
        db.wf(),
        store.wf(),
    ensures
        match r {
            Ok(d) => exists|ui: int, fi: int|
                {
                    &&& 0 <= ui < db@.users.len()
                    &&& 0 <= fi < db@.files.len()
                    &&& (#[trigger] db@.users[ui]).id == Some(user_id)
                    &&& file_matches(#[trigger] db@.files[fi], file_id@, user_id)
                    &&& ({
                        let key = (
                            resolved_path(db@.users[ui].folder_id@, db@.files[fi].folder_id@),
                            file_id@,
                        );
                        &&& store@.objects.contains_key(key)
                        &&& d.content@ == store@.objects[key]
                    })
                    &&& d.media_type@ == match db@.files[fi].media_type {
                        Some(m) => m@,
                        None => "application/octet-stream"@,
                    }
                    &&& d.file_name@ == match db@.files[fi].orginal_filename {
                        Some(nm) => nm@,
                        None => "Unknown"@,
                    }
                },
            Err(e) => {
                &&& e is NotFound
                &&& ((forall|i: int|
                    0 <= i < db@.users.len() ==> (#[trigger] db@.users[i]).id != Some(user_id))
                    || (forall|i: int|
                    0 <= i < db@.files.len() ==> !file_matches(
                        #[trigger] db@.files[i],
                        file_id@,
                        user_id,
                    )) || (forall|ui: int, fi: int|
                    0 <= ui < db@.users.len() && 0 <= fi < db@.files.len() && (
                    #[trigger] db@.users[ui]).id == Some(user_id) && file_matches(
                        #[trigger] db@.files[fi],
                        file_id@,
                        user_id,
                    ) ==> !store@.objects.contains_key(
                        (
                            resolved_path(db@.users[ui].folder_id@, db@.files[fi].folder_id@),
                            file_id@,
                        ),
                    )))
            },
        },
{
    let user = match get_user(db, user_id) {
        Ok(u) => u,
        Err(e) => {
            return Err(e);
        },
    };
    let file = match get_file(db, file_id, user_id) {
        Ok(f) => f,
        Err(e) => {
            return Err(e);
        },
    };
    if file.owner_id != user_id {
        // Unreachable under the dual filter above; kept as defence in depth.
        return Err(ServiceError::NotFound(file_id.clone()));
    }
    let ghost ui0 = choose|ui: int|
        0 <= ui < db@.users.len() && (#[trigger] db@.users[ui]).id == Some(user_id) && user
            == user_public(db@.users[ui]);
    let ghost fi0 = choose|fi: int|
        0 <= fi < db@.files.len() && #[trigger] db@.files[fi] == file && file_matches(
            file,
            file_id@,
            user_id,
        );
    let full_path = build_full_path(user.folder_id.as_str(), file.folder_id.as_str());
    let content = match crate::files_service::get_file_contents(store, full_path, file.id.as_str())
        {
        Ok(c) => c,
        Err(e) => {
            proof {
                // the matching user and file are unique, so every matching
                // pair resolves the same absent key
                assert forall|ui: int, fi: int|
                    0 <= ui < db@.users.len() && 0 <= fi < db@.files.len() && (
                    #[trigger] db@.users[ui]).id == Some(user_id) && file_matches(
                    #[trigger] db@.files[fi],
                    file_id@,
                    user_id,
                ) implies !store@.objects.contains_key(
                    (
                        resolved_path(db@.users[ui].folder_id@, db@.files[fi].folder_id@),
                        file_id@,
                    ),
                ) by {
                    assert(ui == ui0) by {
                        if ui != ui0 {
                            assert(db@.users[ui].id != db@.users[ui0].id);
                        }
                    }
                    assert(fi == fi0) by {
                        if fi != fi0 {
                            assert(db@.files[fi].id@ != db@.files[fi0].id@);
                        }
                    }
                    assert(db@.users[ui0].folder_id@ == user.folder_id@);
                    assert(db@.files[fi0].folder_id@ == file.folder_id@);
                    assert(db@.files[fi0].id@ == file_id@);
                }
            }
            return Err(e);
        },
    };
    let media_type = match &file.media_type {
        Some(m) => m.clone(),
        None => "application/octet-stream".to_owned(),
    };
    let file_name = match &file.orginal_filename {
        Some(nm) => nm.clone(),
        None => "Unknown".to_owned(),
    };
    Ok(DownloadResult { content, media_type, file_name })
}

/// Tenant isolation at the metadata layer: a record owned by one user
/// never answers another user's dual-filtered lookup, owner-scoped file
/// listing, or owner-scoped folder listing — even when the other user
/// supplies the record's exact id. Together with the ownership filters in
/// the services' contracts, no operation of user `a` can observe or affect
/// what user `b` owns.
pub proof fn lemma_tenant_isolation(
    v: DbView,
    a: i32,
    b: i32,
    id: Seq<char>,
    folder: Option<Seq<char>>,
    parent: Seq<char>,
)
    requires
        a != b,
    ensures
        forall|i: int|
            0 <= i < v.files.len() && (#[trigger] v.files[i]).owner_id == b ==> !file_matches(
                v.files[i],
                id,
                a,
            ),
        forall|i: int|
            0 <= i < v.files.len() && (#[trigger] v.files[i]).owner_id == b
                ==> !file_query_matches(v.files[i], a, folder),
        forall|i: int|
            0 <= i < v.folders.len() && (#[trigger] v.folders[i]).owner_id == b
                ==> !folder_query_matches(v.folders[i], a, parent),
{
}

/// Tenant path separation: in a well-formed store, two distinct users
/// never resolve to the same content path, whichever generated folder id
/// each side resolves against. Upload and download key the content store
/// only through such paths, so one tenant's content keys never collide
/// with another's.
pub proof fn lemma_distinct_user_paths(v: DbView, i: int, j: int, f1: Seq<char>, f2: Seq<char>)
    requires
        v.wf(),
        0 <= i < v.users.len(),
        0 <= j < v.users.len(),
        i != j,
        is_generated_id(f1),
        is_generated_id(f2),
    ensures
        resolved_path(v.users[i].folder_id@, f1) != resolved_path(v.users[j].folder_id@, f2),
{
    broadcast use lemma_generated_id_slash_free;

    assert(v.users[i].folder_id@ != v.users[j].folder_id@);
    assert(is_generated_id(v.users[i].folder_id@));
    assert(is_generated_id(v.users[j].folder_id@));
    lemma_resolved_path_injective(v.users[i].folder_id@, f1, v.users[j].folder_id@, f2);
}

/// Upload/download agreement on content: both sides key the store through
/// the same path resolution, so after the insert a successful upload
/// performs, the lookup a download performs on the same identifiers
/// returns exactly the uploaded bytes.
pub proof fn lemma_upload_download_round_trip(
    objects: Map<(Seq<char>, Seq<char>), Seq<u8>>,
    root: Seq<char>,
    folder: Seq<char>,
    file_id: Seq<char>,
    chunks: Seq<Seq<u8>>,
)
    ensures
        ({
            let key = (resolved_path(root, folder), file_id);
            let after = objects.insert(key, chunks.flatten());
            after.contains_key(key) && after[key] == chunks.flatten()
        }),
{
}

} // verus!
