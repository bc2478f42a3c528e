//! The folder metadata service: owner-scoped listing of a folder's
//! children, and creation of folders whose parent must belong to the same
//! owner.

use crate::db::{folder_id_taken, folder_owned_by, Database};
use crate::dto::{clone_folder, CreateFolderDto, FolderDto};
use crate::error::ServiceError;
use crate::ids::{is_generated_id, new_uuid};
use vstd::prelude::*;

verus! {

/// Whether a folder record answers an owner-scoped children listing.
pub open spec fn folder_query_matches(f: FolderDto, user_id: i32, parent: Seq<char>) -> bool {
    f.owner_id == user_id && f.parent_folder_id@ == parent
}

/// List the folders whose parent is `folder_id`, scoped to the caller. The
/// answer is exactly the owner-scoped selection — folders of other owners
/// never appear — and an empty answer is not an error.
#[verifier::loop_isolation(false)]
pub fn get_all_folders_in_folder(db: &Database, user_id: i32, folder_id: String) -> (r: Result<
    Vec<FolderDto>,
    ServiceError,
>)
    ensures
        match r {
            Ok(v) => v@ == db@.folders.filter(
                |f: FolderDto| folder_query_matches(f, user_id, folder_id@),
            ),
            Err(_) => false,
        },
{
    let ghost pred = |f: FolderDto| folder_query_matches(f, user_id, folder_id@);
    let n = db.folders.len();
    let mut out: Vec<FolderDto> = Vec::new();
    let mut i: usize = 0;
    while i < n
        invariant
            0 <= i <= n,
            out@ == db@.folders.take(i as int).filter(pred),
        decreases n - i,
    {
        let f = &db.folders[i];
        let selected = f.owner_id == user_id && f.parent_folder_id == folder_id;
        proof {
            assert(selected == pred(db@.folders[i as int]));
            assert(db@.folders.take(i + 1).drop_last() =~= db@.folders.take(i as int));
            assert(db@.folders.take(i + 1).last() == db@.folders[i as int]);
            reveal_with_fuel(Seq::filter, 2);
        }
        if selected {
            out.push(clone_folder(f));
        }
        i = i + 1;
    }
    proof {
        assert(db@.folders.take(n as int) =~= db@.folders);
    }
    Ok(out)
}

/// Persist a folder row around an already-drawn id: the exact decision
/// that follows the random draw, for every value the draw could take.
/// Fails exactly when the drawn id is already in use — the uniqueness a
/// table key would enforce — and nothing changes then.
#[verifier::loop_isolation(false)]
pub fn insert_folder_row(
    db: &mut Database,
    folder: CreateFolderDto,
    owner_id: i32,
    id: String,
) -> (r: Result<String, ServiceError>)
    requires
        old(db).wf(),
        is_generated_id(id@),
        folder_owned_by(old(db)@, folder.parent_folder_id@, owner_id),
    ensures
        final(db).wf(),
        final(db)@.users == old(db)@.users,
        final(db)@.files == old(db)@.files,
        final(db)@.next_user_id == old(db)@.next_user_id,
        match r {
            Ok(rid) => {
                &&& rid@ == id@
                &&& !folder_id_taken(old(db)@, id@)
                &&& exists|f: FolderDto|
                    {
                        &&& final(db)@.folders == old(db)@.folders.push(f)
                        &&& f.id == id
                        &&& f.owner_id == owner_id
                        &&& f.parent_folder_id == folder.parent_folder_id
                        &&& f.title == folder.title
                        &&& f.description == folder.description
                        &&& f.created_at is None
                        &&& f.updated_at is None
                        &&& f.created_by == owner_id
                        &&& f.updated_by == owner_id
                        &&& f.active
                    }
            },
            Err(e) => {
                &&& final(db)@ == old(db)@
                &&& e is InternalServerError
                &&& folder_id_taken(old(db)@, id@)
            },
        },
{
    let n = db.folders.len();
    let mut i: usize = 0;
    while i < n
        invariant
            0 <= i <= n,
            forall|j: int| 0 <= j < i ==> (#[trigger] db@.folders[j]).id@ != id@,
        decreases n - i,
    {
        if db.folders[i].id == id {
            return Err(ServiceError::InternalServerError("id collision".to_owned()));
        }
        i = i + 1;
    }
    let ghost prev = db@;
    let rec = FolderDto {
        id: id.clone(),
        owner_id,
        parent_folder_id: folder.parent_folder_id,
        title: folder.title,
        description: folder.description,
        created_at: None,
        updated_at: None,
        created_by: owner_id,
        updated_by: owner_id,
        active: true,
    };
    db.folders.push(rec);
    proof {
        assert(db@.folders == prev.folders.push(db@.folders.last()));
        assert forall|k: int| 0 <= k < db@.folders.len() implies folder_owned_by(
            db@,
            (#[trigger] db@.folders[k]).parent_folder_id@,
            db@.folders[k].owner_id,
        ) by {
            assert(db@.users == prev.users);
            if k < db@.folders.len() - 1 {
                assert(folder_owned_by(prev, prev.folders[k].parent_folder_id@,
                    prev.folders[k].owner_id));
                crate::db::lemma_folder_owned_extend(
                    prev,
                    db@,
                    prev.folders[k].parent_folder_id@,
                    prev.folders[k].owner_id,
                );
            } else {
                assert(folder_owned_by(prev, db@.folders[k].parent_folder_id@, owner_id));
                crate::db::lemma_folder_owned_extend(
                    prev,
                    db@,
                    db@.folders[k].parent_folder_id@,
                    owner_id,
                );
            }
        }
        assert forall|k: int| 0 <= k < db@.files.len() implies folder_owned_by(
            db@,
            (#[trigger] db@.files[k]).folder_id@,
            db@.files[k].owner_id,
        ) by {
            assert(folder_owned_by(prev, prev.files[k].folder_id@, prev.files[k].owner_id));
            crate::db::lemma_folder_owned_extend(
                prev,
                db@,
                prev.files[k].folder_id@,
                prev.files[k].owner_id,
            );
        }
    }
    Ok(id)
}

/// Create a folder owned by the caller, under a freshly generated id. The
/// parent must belong to the caller — the user's root folder or one of the
/// caller's own folders — which keeps every folder inside its owner's
/// namespace; `NotFound` answers exactly the requests that fail it. The
/// only other failure is an `InternalServerError` from the drawn id
/// colliding with one already in use, so on a store without such a
/// collision creation succeeds.
pub fn create_folder(db: &mut Database, folder: CreateFolderDto, owner_id: i32) -> (r: Result<
    String,
    ServiceError,
>)
    requires
        old(db).wf(),
    ensures
        final(db).wf(),
        final(db)@.users == old(db)@.users,
        final(db)@.files == old(db)@.files,
        final(db)@.next_user_id == old(db)@.next_user_id,
        match r {
            Ok(rid) => {
                &&& folder_owned_by(old(db)@, folder.parent_folder_id@, owner_id)
                &&& is_generated_id(rid@)
                &&& !folder_id_taken(old(db)@, rid@)
                &&& exists|f: FolderDto|
                    {
                        &&& final(db)@.folders == old(db)@.folders.push(f)
                        &&& f.id@ == rid@
                        &&& f.owner_id == owner_id
                        &&& f.parent_folder_id == folder.parent_folder_id
                        &&& f.title == folder.title
                        &&& f.description == folder.description
                        &&& f.created_at is None
                        &&& f.updated_at is None
                        &&& f.created_by == owner_id
                        &&& f.updated_by == owner_id
                        &&& f.active
                    }
            },
            Err(e) => {
                &&& final(db)@ == old(db)@
                &&& (e is NotFound <==> !folder_owned_by(
                    old(db)@,
                    folder.parent_folder_id@,
                    owner_id,
                ))
                &&& (e is NotFound || e is InternalServerError)
                &&& (e is InternalServerError ==> exists|gid: Seq<char>|
                    is_generated_id(gid) && folder_id_taken(old(db)@, gid))
            },
        },
{
    if !db.check_folder_owned(&folder.parent_folder_id, owner_id) {
        return Err(ServiceError::NotFound(folder.parent_folder_id));
    }
    let uuid = new_uuid();
    let ghost drawn = uuid@;
    let r = insert_folder_row(db, folder, owner_id, uuid);
    proof {
        if r is Err {
            assert(folder_id_taken(old(db)@, drawn) && is_generated_id(drawn));
        }
    }
    r
}

} // verus!
