//! The record store: users, folders and files as ownership-scoped tables,
//! with the well-formedness invariant every operation preserves — unique
//! usernames, unique assigned ids, generated (hence slash-free) folder and
//! file identifiers, and folder references that stay inside their owner's
//! namespace.

use crate::dto::{FileDto, FolderDto, User};
use crate::ids::is_generated_id;
use vstd::prelude::*;

verus! {

/// The mathematical contents of the record store.
pub struct DbView {
    pub users: Seq<User>,
    pub folders: Seq<FolderDto>,
    pub files: Seq<FileDto>,
    pub next_user_id: int,
}

/// Whether some user carries this username.
pub open spec fn has_username(v: DbView, name: Seq<char>) -> bool {
    exists|i: int| 0 <= i < v.users.len() && #[trigger] v.users[i].username@ == name
}

/// Whether `folder` names a folder of user `user_id`: either the user's
/// own root folder, or a folder record owned by the user.
pub open spec fn folder_owned_by(v: DbView, folder: Seq<char>, user_id: i32) -> bool {
    ||| exists|i: int|
        0 <= i < v.users.len() && #[trigger] v.users[i].id == Some(user_id) && v.users[i].folder_id@
            == folder
    ||| exists|i: int|
        0 <= i < v.folders.len() && #[trigger] v.folders[i].owner_id == user_id
            && v.folders[i].id@ == folder
}

/// Whether some folder record carries this id.
pub open spec fn folder_id_taken(v: DbView, id: Seq<char>) -> bool {
    exists|i: int| 0 <= i < v.folders.len() && #[trigger] v.folders[i].id@ == id
}

/// Whether some file record carries this id.
pub open spec fn file_id_taken(v: DbView, id: Seq<char>) -> bool {
    exists|i: int| 0 <= i < v.files.len() && #[trigger] v.files[i].id@ == id
}

/// Whether some user record carries this root-folder id.
pub open spec fn root_id_taken(v: DbView, id: Seq<char>) -> bool {
    exists|i: int| 0 <= i < v.users.len() && #[trigger] v.users[i].folder_id@ == id
}

impl DbView {
    /// Well-formedness of the record store.
    pub open spec fn wf(self) -> bool {
        &&& self.next_user_id >= 1
        &&& forall|i: int, j: int|
            0 <= i < j < self.users.len() ==> #[trigger] self.users[i].username@
                != #[trigger] self.users[j].username@
        &&& forall|i: int| 0 <= i < self.users.len() ==> (#[trigger] self.users[i].id) is Some
        &&& forall|i: int|
            0 <= i < self.users.len() ==> 1 <= (#[trigger] self.users[i].id)->0
                < self.next_user_id
        &&& forall|i: int, j: int|
            0 <= i < j < self.users.len() ==> #[trigger] self.users[i].id
                != #[trigger] self.users[j].id
        &&& forall|i: int, j: int|
            0 <= i < j < self.users.len() ==> #[trigger] self.users[i].folder_id@
                != #[trigger] self.users[j].folder_id@
        &&& forall|i: int|
            0 <= i < self.users.len() ==> is_generated_id(#[trigger] self.users[i].folder_id@)
        &&& forall|i: int, j: int|
            0 <= i < j < self.folders.len() ==> #[trigger] self.folders[i].id@
                != #[trigger] self.folders[j].id@
        &&& forall|i: int|
            0 <= i < self.folders.len() ==> is_generated_id(#[trigger] self.folders[i].id@)
        &&& forall|i: int|
            0 <= i < self.folders.len() ==> folder_owned_by(
                self,
                (#[trigger] self.folders[i]).parent_folder_id@,
                self.folders[i].owner_id,
            )
        &&& forall|i: int, j: int|
            0 <= i < j < self.files.len() ==> #[trigger] self.files[i].id@
                != #[trigger] self.files[j].id@
        &&& forall|i: int|
            0 <= i < self.files.len() ==> is_generated_id(#[trigger] self.files[i].id@)
        &&& forall|i: int|
            0 <= i < self.files.len() ==> folder_owned_by(
                self,
                (#[trigger] self.files[i]).folder_id@,
                self.files[i].owner_id,
            )
        &&& forall|i: int|
            0 <= i < self.files.len() ==> (#[trigger] self.files[i]).created_by
                == self.files[i].owner_id
    }
}

/// Folder ownership survives growing the user or folder tables: whatever
/// owned a folder before still owns it after rows are appended.
pub proof fn lemma_folder_owned_extend(v1: DbView, v2: DbView, folder: Seq<char>, user_id: i32)
    requires
        folder_owned_by(v1, folder, user_id),
        v1.users.len() <= v2.users.len(),
        forall|i: int| 0 <= i < v1.users.len() ==> #[trigger] v2.users[i] == v1.users[i],
        v1.folders.len() <= v2.folders.len(),
        forall|i: int| 0 <= i < v1.folders.len() ==> #[trigger] v2.folders[i] == v1.folders[i],
    ensures
        folder_owned_by(v2, folder, user_id),
{
    if exists|i: int|
        0 <= i < v1.users.len() && #[trigger] v1.users[i].id == Some(user_id)
            && v1.users[i].folder_id@ == folder {
        let i = choose|i: int|
            0 <= i < v1.users.len() && #[trigger] v1.users[i].id == Some(user_id)
                && v1.users[i].folder_id@ == folder;
        assert(v2.users[i].id == Some(user_id) && v2.users[i].folder_id@ == folder);
    } else {
        let i = choose|i: int|
            0 <= i < v1.folders.len() && #[trigger] v1.folders[i].owner_id == user_id
                && v1.folders[i].id@ == folder;
        assert(v2.folders[i].owner_id == user_id && v2.folders[i].id@ == folder);
    }
}

/// The record store. The tables are reachable only through the service
/// functions, which keep `wf` intact.
pub struct Database {
    pub(crate) users: Vec<User>,
    pub(crate) folders: Vec<FolderDto>,
    pub(crate) files: Vec<FileDto>,
    pub(crate) next_user_id: i32,
}

impl View for Database {
    type V = DbView;

    open(crate) spec fn view(&self) -> DbView {
        DbView {
            users: self.users@,
            folders: self.folders@,
            files: self.files@,
            next_user_id: self.next_user_id as int,
        }
    }
}

impl Database {
    /// Well-formedness, as a predicate on the store itself.
    pub open spec fn wf(&self) -> bool {
        self@.wf()
    }

    /// Whether `folder` names a folder of `user_id`: the user's own root
    /// folder or a folder record owned by the user. This is the explicit
    /// check that keeps every file and folder reference inside its owner's
    /// namespace.
    #[verifier::loop_isolation(false)]
    pub fn check_folder_owned(&self, folder: &String, user_id: i32) -> (r: bool)
        ensures
            r == folder_owned_by(self@, folder@, user_id),
    {
        let n = self.users.len();
        let mut i: usize = 0;
        while i < n
            invariant
                0 <= i <= n,
                forall|j: int|
                    0 <= j < i ==> !((#[trigger] self@.users[j]).id == Some(user_id)
                        && self@.users[j].folder_id@ == folder@),
            decreases n - i,
        {
            let root_matches = match self.users[i].id {
                Some(id) => id == user_id,
                None => false,
            };
            if root_matches && self.users[i].folder_id == *folder {
                return true;
            }
            i = i + 1;
        }
        let m = self.folders.len();
        let mut k: usize = 0;
        while k < m
            invariant
                0 <= k <= m,
                forall|j: int|
                    0 <= j < k ==> !((#[trigger] self@.folders[j]).owner_id == user_id
                        && self@.folders[j].id@ == folder@),
            decreases m - k,
        {
            if self.folders[k].owner_id == user_id && self.folders[k].id == *folder {
                return true;
            }
            k = k + 1;
        }
        false
    }

    /// An empty record store.
    pub fn new() -> (db: Database)
        ensures
            db.wf(),
            db@.users == Seq::<User>::empty(),
            db@.folders == Seq::<FolderDto>::empty(),
            db@.files == Seq::<FileDto>::empty(),
            db@.next_user_id == 1,
    {
        Database { users: Vec::new(), folders: Vec::new(), files: Vec::new(), next_user_id: 1 }
    }
}

} // verus!
