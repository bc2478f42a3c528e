//! The file metadata service: creation, dual-filtered lookup, owner-scoped
//! listing, and updates that can never cross a tenant boundary.

use crate::db::{file_id_taken, folder_owned_by, Database};
use crate::dto::{clone_file, opt_str_view, CreateFileDto, FileDto, QueryParams};
use crate::error::ServiceError;
use crate::file_store::FileStore;
use crate::ids::{is_generated_id, new_uuid};
use vstd::prelude::*;
use vstd::pervasive::VecAdditionalExecFns;

verus! {

/// Whether a file record answers a dual-filtered lookup: it must match
/// both the file id and the owner. A file id alone never fetches a record.
pub open spec fn file_matches(f: FileDto, file_id: Seq<char>, user_id: i32) -> bool {
    f.id@ == file_id && f.owner_id == user_id
}

/// Whether a file record answers an owner-scoped listing with an optional
/// folder filter.
pub open spec fn file_query_matches(f: FileDto, user_id: i32, folder: Option<Seq<char>>) -> bool {
    &&& f.owner_id == user_id
    &&& match folder {
        Some(q) => f.folder_id@ == q,
        None => true,
    }
}

/// The record after an update: the caller's content fields over the stored
/// identity and creation-audit fields, with the update stamped.
pub open spec fn updated_file(orig: FileDto, new: FileDto, owner_id: i32, now: i64) -> FileDto {
    FileDto {
        id: orig.id,
        owner_id: orig.owner_id,
        access_level: new.access_level,
        title: new.title,
        folder_id: new.folder_id,
        media_type: new.media_type,
        orginal_filename: new.orginal_filename,
        description: new.description,
        created_at: orig.created_at,
        updated_at: Some(now),
        created_by: orig.created_by,
        updated_by: owner_id,
        active: new.active,
    }
}

/// Persist a file row around an already-drawn id: the exact decision that
/// follows the random draw, for every value the draw could take. Fails
/// exactly when the drawn id is already in use — the uniqueness a table
/// key would enforce — and nothing changes then.
#[verifier::loop_isolation(false)]
pub fn insert_file_row(db: &mut Database, file: CreateFileDto, owner_id: i32, id: String) -> (r:
    Result<String, ServiceError>)
    requires
        old(db).wf(),
        is_generated_id(id@),
        folder_owned_by(old(db)@, file.folder_id@, owner_id),
    ensures
        final(db).wf(),
        final(db)@.users == old(db)@.users,
        final(db)@.folders == old(db)@.folders,
        final(db)@.next_user_id == old(db)@.next_user_id,
        match r {
            Ok(rid) => {
                &&& rid@ == id@
                &&& !file_id_taken(old(db)@, id@)
                &&& exists|f: FileDto|
                    {
                        &&& final(db)@.files == old(db)@.files.push(f)
                        &&& f.id == id
                        &&& f.owner_id == owner_id
                        &&& f.access_level == file.access_level
                        &&& f.title == file.title
                        &&& f.folder_id == file.folder_id
                        &&& f.media_type == Some(file.media_type)
                        &&& f.orginal_filename is None
                        &&& f.description == file.description
                        &&& f.created_at is None
                        &&& f.updated_at is None
                        &&& f.created_by == owner_id
                        &&& f.updated_by == owner_id
                        &&& f.active
                    }
            },
            Err(e) => {
                &&& final(db)@ == old(db)@
                &&& e is InternalServerError
                &&& file_id_taken(old(db)@, id@)
            },
        },
{
    let n = db.files.len();
    let mut i: usize = 0;
    while i < n
        invariant
            0 <= i <= n,
            forall|j: int| 0 <= j < i ==> (#[trigger] db@.files[j]).id@ != id@,
        decreases n - i,
    {
        if db.files[i].id == id {
            return Err(ServiceError::InternalServerError("id collision".to_owned()));
        }
        i = i + 1;
    }
    let ghost prev = db@;
    let rec = FileDto {
        id: id.clone(),
        owner_id,
        access_level: file.access_level,
        title: file.title,
        folder_id: file.folder_id,
        media_type: Some(file.media_type),
        orginal_filename: None,
        description: file.description,
        created_at: None,
        updated_at: None,
        created_by: owner_id,
        updated_by: owner_id,
        active: true,
    };
    db.files.push(rec);
    proof {
        assert(db@.files == prev.files.push(db@.files.last()));
        assert forall|k: int| 0 <= k < db@.files.len() implies folder_owned_by(
            db@,
            (#[trigger] db@.files[k]).folder_id@,
            db@.files[k].owner_id,
        ) by {
            assert(db@.users == prev.users && db@.folders == prev.folders);
            if k < db@.files.len() - 1 {
                assert(folder_owned_by(prev, prev.files[k].folder_id@, prev.files[k].owner_id));
            } else {
                assert(folder_owned_by(prev, db@.files[k].folder_id@, owner_id));
            }
        }
        assert forall|k: int| 0 <= k < db@.folders.len() implies folder_owned_by(
            db@,
            (#[trigger] db@.folders[k]).parent_folder_id@,
            db@.folders[k].owner_id,
        ) by {
            assert(folder_owned_by(prev, prev.folders[k].parent_folder_id@,
                prev.folders[k].owner_id));
        }
    }
    Ok(id)
}

/// Create a file record owned by the caller, under a freshly generated id.
/// The referenced folder must belong to the caller — the check is explicit
/// here, not delegated to any cross-table constraint — and `NotFound`
/// answers exactly the requests that fail it. The only other failure is an
/// `InternalServerError` from the drawn id colliding with one already in
/// use, so on a store without such a collision creation succeeds.
pub fn create_file(db: &mut Database, file: CreateFileDto, owner_id: i32) -> (r: Result<
    String,
    ServiceError,
>)
    requires
        old(db).wf(),
    ensures
        final(db).wf(),
        final(db)@.users == old(db)@.users,
        final(db)@.folders == old(db)@.folders,
        final(db)@.next_user_id == old(db)@.next_user_id,
        match r {
            Ok(rid) => {
                &&& folder_owned_by(old(db)@, file.folder_id@, owner_id)
                &&& is_generated_id(rid@)
                &&& !file_id_taken(old(db)@, rid@)
                &&& exists|f: FileDto|
                    {
                        &&& final(db)@.files == old(db)@.files.push(f)
                        &&& f.id@ == rid@
                        &&& f.owner_id == owner_id
                        &&& f.access_level == file.access_level
                        &&& f.title == file.title
                        &&& f.folder_id == file.folder_id
                        &&& f.media_type == Some(file.media_type)
                        &&& f.orginal_filename is None
                        &&& f.description == file.description
                        &&& f.created_at is None
                        &&& f.updated_at is None
                        &&& f.created_by == owner_id
                        &&& f.updated_by == owner_id
                        &&& f.active
                    }
            },
            Err(e) => {
                &&& final(db)@ == old(db)@
                &&& (e is NotFound <==> !folder_owned_by(old(db)@, file.folder_id@, owner_id))
                &&& (e is NotFound || e is InternalServerError)
                &&& (e is InternalServerError ==> exists|gid: Seq<char>|
                    is_generated_id(gid) && file_id_taken(old(db)@, gid))
            },
        },
{
    if !db.check_folder_owned(&file.folder_id, owner_id) {
        return Err(ServiceError::NotFound(file.folder_id));
    }
    let uuid = new_uuid();
    let ghost drawn = uuid@;
    let r = insert_file_row(db, file, owner_id, uuid);
    proof {
        if r is Err {
            assert(file_id_taken(old(db)@, drawn) && is_generated_id(drawn));
        }
    }
    r
}

/// Update the file matching both `file.id` and the caller: content fields
/// are replaced and the update is stamped, while identity, ownership and
/// creation audit stay as stored. The count of affected rows is returned —
/// zero signals an ownership or existence mismatch, never a partial write.
/// Rows owned by anyone else are untouched, whatever the arguments.
#[verifier::loop_isolation(false)]
pub fn update_file(db: &mut Database, file: FileDto, owner_id: i32, now: i64) -> (r: Result<
    usize,
    ServiceError,
>)
    requires
        old(db).wf(),
    ensures
        final(db).wf(),
        final(db)@.users == old(db)@.users,
        final(db)@.folders == old(db)@.folders,
        final(db)@.next_user_id == old(db)@.next_user_id,
        final(db)@.files.len() == old(db)@.files.len(),
        forall|i: int|
            0 <= i < old(db)@.files.len() && (#[trigger] old(db)@.files[i]).owner_id != owner_id
                ==> final(db)@.files[i] == old(db)@.files[i],
        match r {
            Ok(count) => {
                &&& folder_owned_by(old(db)@, file.folder_id@, owner_id)
                &&& (count == 0 ==> final(db)@ == old(db)@ && (forall|i: int|
                    0 <= i < old(db)@.files.len() ==> !file_matches(
                        #[trigger] old(db)@.files[i],
                        file.id@,
                        owner_id,
                    )))
                &&& (count == 1 ==> exists|i: int|
                    {
                        &&& 0 <= i < old(db)@.files.len()
                        &&& file_matches(#[trigger] old(db)@.files[i], file.id@, owner_id)
                        &&& final(db)@.files == old(db)@.files.update(
                            i,
                            updated_file(old(db)@.files[i], file, owner_id, now),
                        )
                    })
                &&& (count == 0 || count == 1)
            },
            Err(e) => {
                &&& final(db)@ == old(db)@
                &&& e is NotFound
                &&& !folder_owned_by(old(db)@, file.folder_id@, owner_id)
            },
        },
{
    if !db.check_folder_owned(&file.folder_id, owner_id) {
        return Err(ServiceError::NotFound(file.folder_id));
    }
    let n = db.files.len();
    let mut i: usize = 0;
    while i < n
        invariant
            0 <= i <= n,
            db@ == old(db)@,
            n == db@.files.len(),
            forall|j: int|
                0 <= j < i ==> !file_matches(#[trigger] db@.files[j], file.id@, owner_id),
        decreases n - i,
    {
        if db.files[i].id == file.id && db.files[i].owner_id == owner_id {
            let orig = &db.files[i];
            let rec = FileDto {
                id: orig.id.clone(),
                owner_id: orig.owner_id,
                access_level: file.access_level,
                title: file.title,
                folder_id: file.folder_id,
                media_type: file.media_type,
                orginal_filename: file.orginal_filename,
                description: file.description,
                created_at: orig.created_at,
                updated_at: Some(now),
                created_by: orig.created_by,
                updated_by: owner_id,
                active: file.active,
            };
            let ghost prev = db@;
            db.files.set(i, rec);
            proof {
                assert(db@.files == prev.files.update(
                    i as int,
                    updated_file(prev.files[i as int], file, owner_id, now),
                ));
                assert forall|k: int| 0 <= k < db@.files.len() implies folder_owned_by(
                    db@,
                    (#[trigger] db@.files[k]).folder_id@,
                    db@.files[k].owner_id,
                ) by {
                    assert(db@.users == prev.users && db@.folders == prev.folders);
                    if k != i {
                        assert(db@.files[k] == prev.files[k]);
                        assert(folder_owned_by(prev, prev.files[k].folder_id@,
                            prev.files[k].owner_id));
                    } else {
                        assert(folder_owned_by(prev, file.folder_id@, owner_id));
                    }
                }
                assert forall|k: int| 0 <= k < db@.folders.len() implies folder_owned_by(
                    db@,
                    (#[trigger] db@.folders[k]).parent_folder_id@,
                    db@.folders[k].owner_id,
                ) by {
                    assert(folder_owned_by(prev, prev.folders[k].parent_folder_id@,
                        prev.folders[k].owner_id));
                }
            }
            return Ok(1);
        }
        i = i + 1;
    }
    Ok(0)
}

/// List the caller's files, optionally narrowed to one folder. The answer
/// is exactly the owner-scoped selection — records of other owners never
/// appear — and an empty answer is not an error.
#[verifier::loop_isolation(false)]
pub fn get_all_files(db: &Database, user_id: i32, params: QueryParams) -> (r: Result<
    Vec<FileDto>,
    ServiceError,
>)
    ensures
        match r {
            Ok(v) => v@ == db@.files.filter(
                |f: FileDto| file_query_matches(f, user_id, opt_str_view(params.folder_id)),
            ),
            Err(_) => false,
        },
{
    let ghost pred = |f: FileDto| file_query_matches(f, user_id, opt_str_view(params.folder_id));
    let n = db.files.len();
    let mut out: Vec<FileDto> = Vec::new();
    let mut i: usize = 0;
    while i < n
        invariant
            0 <= i <= n,
            out@ == db@.files.take(i as int).filter(pred),
        decreases n - i,
    {
        let f = &db.files[i];
        let selected = f.owner_id == user_id && (match &params.folder_id {
            Some(q) => f.folder_id == *q,
            None => true,
        });
        proof {
            assert(selected == pred(db@.files[i as int]));
            assert(db@.files.take(i + 1).drop_last() =~= db@.files.take(i as int));
            assert(db@.files.take(i + 1).last() == db@.files[i as int]);
            reveal_with_fuel(Seq::filter, 2);
        }
        if selected {
            out.push(clone_file(f));
        }
        i = i + 1;
    }
    proof {
        assert(db@.files.take(n as int) =~= db@.files);
    }
    Ok(out)
}

/// Fetch the file matching both the file id and the caller — the dual
/// filter that carries tenant isolation. `NotFound` answers exactly when
/// no record matches both; in particular a real file id owned by someone
/// else is indistinguishable from an absent one.
#[verifier::loop_isolation(false)]
pub fn get_file(db: &Database, file_id: &String, user_id: i32) -> (r: Result<FileDto, ServiceError>)
    ensures
        match r {
            Ok(f) => exists|i: int|
                0 <= i < db@.files.len() && #[trigger] db@.files[i] == f && file_matches(
                    f,
                    file_id@,
                    user_id,
                ),
            Err(e) => e is NotFound && forall|i: int|
                0 <= i < db@.files.len() ==> !file_matches(
                    #[trigger] db@.files[i],
                    file_id@,
                    user_id,
                ),
        },
{
    let n = db.files.len();
    let mut i: usize = 0;
    while i < n
        invariant
            0 <= i <= n,
            forall|j: int|
                0 <= j < i ==> !file_matches(#[trigger] db@.files[j], file_id@, user_id),
        decreases n - i,
    {
        if db.files[i].id == *file_id && db.files[i].owner_id == user_id {
            let f = clone_file(&db.files[i]);
            proof {
                assert(db@.files[i as int] == f && file_matches(f, file_id@, user_id));
            }
            return Ok(f);
        }
        i = i + 1;
    }
    Err(ServiceError::NotFound(file_id.clone()))
}

/// Read a file's whole content from the content store at a resolved path.
pub fn get_file_contents(store: &FileStore, path: String, file_id: &str) -> (r: Result<
    Vec<u8>,
    ServiceError,
>)
    requires
        store.wf(),
    ensures
        match r {
            Ok(d) => store@.objects.contains_key((path@, file_id@)) && d@ == store@.objects[(
                path@,
                file_id@,
            )],
            Err(e) => !store@.objects.contains_key((path@, file_id@)) && e is NotFound,
        },
{
    store.retrieve_file(path, file_id.to_owned())
}

} // verus!
