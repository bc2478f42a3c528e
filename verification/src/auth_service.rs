//! The credential store's service functions: user lookup, authentication
//! by username and password, and registration of a new user together with
//! that user's storage namespace.

use crate::db::{has_username, lemma_folder_owned_extend, root_id_taken, Database};
use crate::dto::{NewUserDto, User, UserDto};
use crate::error::ServiceError;
use crate::file_store::FileStore;
use crate::ids::{is_generated_id, new_uuid};
use crate::password::{argon2_verifies, hash_password, is_phc_string, verify_password};
use vstd::prelude::*;

verus! {

/// A syntactically valid PHC string that belongs to no account. When a
/// login names an unknown user, verification still runs against this hash,
/// so an absent account costs the same hash work as a wrong password.
const DUMMY_PHC: &'static str = "$argon2id$v=19$m=19456,t=2,p=1$MDAwMDAwMDAwMDAwMDAwMA$ZGVjb3lkZWNveWRlY295ZGVjb3lkZWNveWRlY295ZGU";

/// The public projection of a stored user: everything but the password
/// hash.
pub open spec fn user_public(u: User) -> UserDto {
    UserDto {
        id: u.id,
        username: u.username,
        email_address: u.email_address,
        folder_id: u.folder_id,
        active: u.active,
    }
}

/// Whether a stored user authenticates a login attempt: the username
/// matches, the password verifies against the stored hash, and the account
/// is active whenever the policy demands it.
pub open spec fn authenticates(
    u: User,
    username: Seq<char>,
    password: Seq<char>,
    require_active: bool,
) -> bool {
    &&& u.username@ == username
    &&& argon2_verifies(password, u.password@)
    &&& require_active ==> u.active
}

/// Clone the public projection of a stored user.
fn make_user_dto(u: &User) -> (r: UserDto)
    ensures
        r == user_public(*u),
{
    UserDto {
        id: u.id,
        username: u.username.clone(),
        email_address: u.email_address.clone(),
        folder_id: u.folder_id.clone(),
        active: u.active,
    }
}

/// Fetch the public record of the user with this id; `NotFound` when no
/// user carries it.
#[verifier::loop_isolation(false)]
pub fn get_user(db: &Database, user_id: i32) -> (r: Result<UserDto, ServiceError>)
    ensures
        match r {
            Ok(u) => exists|i: int|
                0 <= i < db@.users.len() && (#[trigger] db@.users[i]).id == Some(user_id) && u
                    == user_public(db@.users[i]),
            Err(e) => e is NotFound && forall|i: int|
                0 <= i < db@.users.len() ==> (#[trigger] db@.users[i]).id != Some(user_id),
        },
{
    let n = db.users.len();
    let mut i: usize = 0;
    while i < n
        invariant
            0 <= i <= n,
            forall|j: int| 0 <= j < i ==> (#[trigger] db@.users[j]).id != Some(user_id),
        decreases n - i,
    {
        let matches_id = match db.users[i].id {
            Some(id) => id == user_id,
            None => false,
        };
        if matches_id {
            return Ok(make_user_dto(&db.users[i]));
        }
        i = i + 1;
    }
    Err(ServiceError::NotFound("user".to_owned()))
}

/// Whether a user with this username exists.
#[verifier::loop_isolation(false)]
pub fn is_exists(db: &Database, username: String) -> (r: bool)
    ensures
        r == has_username(db@, username@),
{
    let n = db.users.len();
    let mut i: usize = 0;
    while i < n
        invariant
            0 <= i <= n,
            forall|j: int| 0 <= j < i ==> (#[trigger] db@.users[j].username@) != username@,
        decreases n - i,
    {
        if db.users[i].username == username {
            return true;
        }
        i = i + 1;
    }
    false
}

/// Authenticate a login attempt: find the user by username and verify the
/// password against the stored hash. Every failure — unknown username,
/// wrong password, or an inactive account under the active-only policy —
/// reports the same undifferentiated `InvalidCredentials`, and the hash
/// comparison runs in every case.
///
/// Whether an account must be active to log in is an explicit policy
/// choice of the caller, passed as `require_active`.
#[verifier::loop_isolation(false)]
pub fn find_user_by_username_and_password(
    db: &Database,
    username: String,
    password: String,
    require_active: bool,
) -> (r: Result<UserDto, ServiceError>)
    requires
        db.wf(),
    ensures
        match r {
            Ok(u) => exists|i: int|
                0 <= i < db@.users.len() && authenticates(
                    #[trigger] db@.users[i],
                    username@,
                    password@,
                    require_active,
                ) && u == user_public(db@.users[i]),
            Err(e) => e == ServiceError::InvalidCredentials && forall|i: int|
                0 <= i < db@.users.len() ==> !authenticates(
                    #[trigger] db@.users[i],
                    username@,
                    password@,
                    require_active,
                ),
        },
{
    let n = db.users.len();
    let mut i: usize = 0;
    while i < n
        invariant
            0 <= i <= n,
            forall|j: int| 0 <= j < i ==> (#[trigger] db@.users[j]).username@ != username@,
        decreases n - i,
    {
        if db.users[i].username == username {
            let u = &db.users[i];
            let verified = verify_password(password.as_str(), u.password.as_str());
            if verified && (!require_active || u.active) {
                return Ok(make_user_dto(u));
            }
            proof {
                assert forall|j: int| 0 <= j < db@.users.len() implies !authenticates(
                    #[trigger] db@.users[j],
                    username@,
                    password@,
                    require_active,
                ) by {
                    if j != i {
                        if j < i {
                            assert(db@.users[j].username@ != username@);
                        } else {
                            assert(db@.users[i as int].username@ != db@.users[j].username@);
                        }
                    }
                }
            }
            return Err(ServiceError::InvalidCredentials);
        }
        i = i + 1;
    }
    // The decoy hash belongs to no account; whatever verification makes of
    // it, an unknown username fails like a wrong password.
    let _burned = verify_password(password.as_str(), DUMMY_PHC);
    Err(ServiceError::InvalidCredentials)
}

/// Persist a user row around an already-drawn root-folder id: the exact
/// decision that follows the random draw, for every value the draw could
/// take. `Conflict` exactly when the username is taken; otherwise
/// `InternalServerError` exactly when the drawn root id is already in use
/// or the id sequence is exhausted; nothing changes on any failure. On
/// success the row is appended under the next user id and the root
/// namespace exists in the content store.
#[verifier::loop_isolation(false)]
pub fn insert_user_row(
    db: &mut Database,
    store: &mut FileStore,
    username: String,
    email_address: String,
    password_hash: String,
    root_id: String,
) -> (r: Result<bool, ServiceError>)
    requires
        old(db).wf(),
        old(store).wf(),
        is_generated_id(root_id@),
    ensures
        final(db).wf(),
        final(store).wf(),
        final(store)@.objects == old(store)@.objects,
        final(store)@.base_path == old(store)@.base_path,
        final(db)@.folders == old(db)@.folders,
        final(db)@.files == old(db)@.files,
        match r {
            Ok(b) => {
                &&& b == true
                &&& !has_username(old(db)@, username@)
                &&& !root_id_taken(old(db)@, root_id@)
                &&& old(db)@.next_user_id < i32::MAX
                &&& final(db)@.next_user_id == old(db)@.next_user_id + 1
                &&& exists|u: User|
                    {
                        &&& final(db)@.users == old(db)@.users.push(u)
                        &&& u.id == Some(old(db)@.next_user_id as i32)
                        &&& u.username == username
                        &&& u.password == password_hash
                        &&& u.email_address == email_address
                        &&& u.folder_id == root_id
                        &&& !u.active
                    }
                &&& final(store)@.namespaces.contains(root_id@)
            },
            Err(e) => {
                &&& final(db)@ == old(db)@
                &&& final(store)@.namespaces == old(store)@.namespaces
                &&& (e is Conflict <==> has_username(old(db)@, username@))
                &&& (!(e is Conflict) ==> e is InternalServerError && (root_id_taken(
                    old(db)@,
                    root_id@,
                ) || old(db)@.next_user_id >= i32::MAX))
            },
        },
{
    if is_exists(db, username.clone()) {
        return Err(ServiceError::Conflict(username));
    }
    // Mirror the uniqueness a table key would enforce: a root id already
    // in use aborts the insert.
    let n = db.users.len();
    let mut i: usize = 0;
    while i < n
        invariant
            0 <= i <= n,
            forall|j: int| 0 <= j < i ==> (#[trigger] db@.users[j]).folder_id@ != root_id@,
        decreases n - i,
    {
        if db.users[i].folder_id == root_id {
            return Err(ServiceError::InternalServerError("root id already in use".to_owned()));
        }
        i = i + 1;
    }
    if db.next_user_id == i32::MAX {
        return Err(ServiceError::InternalServerError("user ids exhausted".to_owned()));
    }
    let id = db.next_user_id;
    let user = User {
        id: Some(id),
        username,
        password: password_hash,
        email_address,
        folder_id: root_id.clone(),
        active: false,
    };
    let ghost prev = db@;
    db.next_user_id = id + 1;
    db.users.push(user);
    proof {
        assert(db@.users == prev.users.push(db@.users.last()));
        assert forall|k: int| 0 <= k < db@.folders.len() implies crate::db::folder_owned_by(
            db@,
            (#[trigger] db@.folders[k]).parent_folder_id@,
            db@.folders[k].owner_id,
        ) by {
            lemma_folder_owned_extend(
                prev,
                db@,
                db@.folders[k].parent_folder_id@,
                db@.folders[k].owner_id,
            );
        }
        assert forall|k: int| 0 <= k < db@.files.len() implies crate::db::folder_owned_by(
            db@,
            (#[trigger] db@.files[k]).folder_id@,
            db@.files[k].owner_id,
        ) by {
            lemma_folder_owned_extend(
                prev,
                db@,
                db@.files[k].folder_id@,
                db@.files[k].owner_id,
            );
        }
    }
    match store.create_folder(root_id) {
        Ok(()) => {},
        Err(e) => {
            return Err(e);
        },
    }
    Ok(true)
}

/// Register a user: hash the password, draw a fresh root-folder id, and
/// persist the row inactive-by-default together with its storage
/// namespace. `Conflict` exactly when the username is taken; the only
/// other failure is an `InternalServerError` from an exhausted id sequence
/// or a drawn root id colliding with one already in use — on a store
/// without such a collision, registration of a free username succeeds.
pub fn create_user(db: &mut Database, store: &mut FileStore, new_user: NewUserDto) -> (r: Result<
    bool,
    ServiceError,
>)
    requires
        old(db).wf(),
        old(store).wf(),
    ensures
        final(db).wf(),
        final(store).wf(),
        final(store)@.objects == old(store)@.objects,
        final(store)@.base_path == old(store)@.base_path,
        final(db)@.folders == old(db)@.folders,
        final(db)@.files == old(db)@.files,
        match r {
            Ok(b) => {
                &&& b == true
                &&& !has_username(old(db)@, new_user.username@)
                &&& final(db)@.next_user_id == old(db)@.next_user_id + 1
                &&& exists|u: User|
                    {
                        &&& final(db)@.users == old(db)@.users.push(u)
                        &&& u.id == Some(old(db)@.next_user_id as i32)
                        &&& u.username@ == new_user.username@
                        &&& u.email_address@ == new_user.email_address@
                        &&& argon2_verifies(new_user.password@, u.password@)
                        &&& is_phc_string(u.password@)
                        &&& is_generated_id(u.folder_id@)
                        &&& !root_id_taken(old(db)@, u.folder_id@)
                        &&& !u.active
                        &&& final(store)@.namespaces.contains(u.folder_id@)
                    }
            },
            Err(e) => {
                &&& final(db)@ == old(db)@
                &&& final(store)@.namespaces == old(store)@.namespaces
                &&& (e is Conflict <==> has_username(old(db)@, new_user.username@))
                &&& (e is Conflict || e is InternalServerError)
                &&& (e is InternalServerError ==> old(db)@.next_user_id >= i32::MAX || (
                exists|id: Seq<char>| is_generated_id(id) && root_id_taken(old(db)@, id)))
            },
        },
{
    let hashed = hash_password(new_user.password.as_str());
    let uuid = new_uuid();
    let ghost drawn = uuid@;
    let r = insert_user_row(db, store, new_user.username, new_user.email_address, hashed, uuid);
    proof {
        if r is Err && r->Err_0 is InternalServerError && old(db)@.next_user_id < i32::MAX {
            assert(root_id_taken(old(db)@, drawn) && is_generated_id(drawn));
        }
    }
    r
}

} // verus!
