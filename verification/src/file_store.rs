//! The content store: byte payloads keyed by a resolved path and a file
//! id, plus the per-user namespaces created at registration. Writes go in
//! chunk by chunk and overwrite whole objects; reads return the whole
//! payload or report that the key holds nothing.

use crate::error::ServiceError;
use vstd::pervasive::VecAdditionalExecFns;
use vstd::prelude::*;
use vstd::slice::slice_to_vec;

verus! {

broadcast use vstd::seq_lib::group_seq_properties;

/// One stored object: a byte payload under a (path, name) key.
pub struct StoredObject {
    pub path: String,
    pub name: String,
    pub data: Vec<u8>,
}

/// The key of a stored object.
pub open spec fn obj_key(o: StoredObject) -> (Seq<char>, Seq<char>) {
    (o.path@, o.name@)
}

/// The keyed contents of a sequence of stored objects; a later object with
/// the same key would shadow an earlier one, but the store never keeps two.
pub open spec fn objects_map(objs: Seq<StoredObject>) -> Map<(Seq<char>, Seq<char>), Seq<u8>>
    decreases objs.len(),
{
    if objs.len() == 0 {
        Map::<(Seq<char>, Seq<char>), Seq<u8>>::empty()
    } else {
        objects_map(objs.drop_last()).insert(obj_key(objs.last()), objs.last().data@)
    }
}

/// No two stored objects share a key.
pub open spec fn unique_keys(objs: Seq<StoredObject>) -> bool {
    forall|i: int, j: int|
        0 <= i < j < objs.len() ==> obj_key(#[trigger] objs[i]) != obj_key(#[trigger] objs[j])
}

/// Characterisation of the keyed contents: the domain is the set of keys,
/// and, under unique keys, each key maps to its own object's bytes.
proof fn lemma_objects_map_char(objs: Seq<StoredObject>)
    ensures
        forall|k: (Seq<char>, Seq<char>)|
            #[trigger] objects_map(objs).dom().contains(k) <==> exists|i: int|
                0 <= i < objs.len() && obj_key(#[trigger] objs[i]) == k,
        unique_keys(objs) ==> forall|i: int|
            0 <= i < objs.len() ==> objects_map(objs)[obj_key(#[trigger] objs[i])]
                == objs[i].data@,
    decreases objs.len(),
{
    if objs.len() > 0 {
        let prefix = objs.drop_last();
        lemma_objects_map_char(prefix);
        assert(forall|i: int| 0 <= i < prefix.len() ==> prefix[i] == #[trigger] objs[i]);
        assert(objects_map(objs) == objects_map(prefix).insert(
            obj_key(objs.last()),
            objs.last().data@,
        ));
        assert forall|k: (Seq<char>, Seq<char>)| #[trigger]
            objects_map(objs).dom().contains(k) implies exists|i: int|
            0 <= i < objs.len() && obj_key(#[trigger] objs[i]) == k by {
            if k == obj_key(objs.last()) {
                assert(obj_key(objs[objs.len() - 1]) == k);
            } else {
                assert(objects_map(prefix).dom().contains(k));
                let i = choose|i: int| 0 <= i < prefix.len() && obj_key(#[trigger] prefix[i]) == k;
                assert(prefix[i] == objs[i]);
                assert(obj_key(objs[i]) == k);
            }
        }
        assert forall|k: (Seq<char>, Seq<char>)|
            (exists|i: int| 0 <= i < objs.len() && obj_key(#[trigger] objs[i]) == k) implies
            #[trigger] objects_map(objs).dom().contains(k) by {
            let i = choose|i: int| 0 <= i < objs.len() && obj_key(#[trigger] objs[i]) == k;
            if i < objs.len() - 1 {
                assert(obj_key(prefix[i]) == k);
                assert(objects_map(prefix).dom().contains(k));
            } else {
                assert(k == obj_key(objs.last()));
            }
        }
        if unique_keys(objs) {
            assert(unique_keys(prefix));
            assert forall|i: int| 0 <= i < objs.len() implies objects_map(objs)[obj_key(
                #[trigger] objs[i],
            )] == objs[i].data@ by {
                if i < objs.len() - 1 {
                    assert(obj_key(objs[i]) != obj_key(objs.last()));
                    assert(objects_map(prefix)[obj_key(prefix[i])] == prefix[i].data@);
                }
            }
        }
    }
}

/// Replacing the object at `i` by one with the same key updates exactly
/// that key's payload.
proof fn lemma_objects_map_update(objs: Seq<StoredObject>, i: int, obj: StoredObject)
    requires
        unique_keys(objs),
        0 <= i < objs.len(),
        obj_key(obj) == obj_key(objs[i]),
    ensures
        unique_keys(objs.update(i, obj)),
        objects_map(objs.update(i, obj)) == objects_map(objs).insert(obj_key(obj), obj.data@),
{
    let new = objs.update(i, obj);
    assert(forall|j: int| 0 <= j < objs.len() ==> obj_key(#[trigger] new[j]) == obj_key(objs[j]));
    lemma_objects_map_char(objs);
    lemma_objects_map_char(new);
    let target = objects_map(objs).insert(obj_key(obj), obj.data@);
    assert forall|k: (Seq<char>, Seq<char>)| #[trigger]
        objects_map(new).dom().contains(k) implies target.dom().contains(k) by {
        let j = choose|j: int| 0 <= j < new.len() && obj_key(#[trigger] new[j]) == k;
        assert(obj_key(objs[j]) == k);
    }
    assert forall|k: (Seq<char>, Seq<char>)| #[trigger]
        target.dom().contains(k) implies objects_map(new).dom().contains(k) by {
        if k == obj_key(obj) {
            assert(obj_key(new[i]) == k);
        } else {
            let j = choose|j: int| 0 <= j < objs.len() && obj_key(#[trigger] objs[j]) == k;
            assert(obj_key(new[j]) == k);
        }
    }
    assert forall|k: (Seq<char>, Seq<char>)| #[trigger]
        objects_map(new).dom().contains(k) implies objects_map(new)[k] == target[k] by {
        let j = choose|j: int| 0 <= j < new.len() && obj_key(#[trigger] new[j]) == k;
        assert(objects_map(new)[k] == new[j].data@);
        if k == obj_key(obj) {
            assert(j == i) by {
                if j != i {
                    assert(obj_key(objs[j]) == obj_key(objs[i]));
                }
            }
            assert(new[i] == obj);
        } else {
            assert(j != i);
            assert(new[j] == objs[j]);
            assert(objects_map(objs)[k] == objs[j].data@);
        }
    }
    assert(objects_map(new) =~= target);
}

/// Appending an object with a fresh key adds exactly that key.
proof fn lemma_objects_map_push(objs: Seq<StoredObject>, obj: StoredObject)
    requires
        unique_keys(objs),
        forall|i: int| 0 <= i < objs.len() ==> obj_key(#[trigger] objs[i]) != obj_key(obj),
    ensures
        unique_keys(objs.push(obj)),
        objects_map(objs.push(obj)) == objects_map(objs).insert(obj_key(obj), obj.data@),
{
    let new = objs.push(obj);
    assert(new.drop_last() =~= objs);
    assert(new.last() == obj);
    assert forall|i: int, j: int| 0 <= i < j < new.len() implies obj_key(#[trigger] new[i])
        != obj_key(#[trigger] new[j]) by {
        if j < new.len() - 1 {
            assert(new[i] == objs[i] && new[j] == objs[j]);
        } else {
            assert(new[j] == obj);
            assert(new[i] == objs[i]);
        }
    }
}

/// The mathematical contents of the content store.
pub struct FileStoreView {
    pub base_path: Seq<char>,
    pub namespaces: Seq<Seq<char>>,
    pub objects: Map<(Seq<char>, Seq<char>), Seq<u8>>,
}

/// The content store: a byte-object store under a base path.
pub struct FileStore {
    base_path: String,
    namespaces: Vec<String>,
    objects: Vec<StoredObject>,
}

impl View for FileStore {
    type V = FileStoreView;

    closed spec fn view(&self) -> FileStoreView {
        FileStoreView {
            base_path: self.base_path@,
            namespaces: self.namespaces@.map_values(|s: String| s@),
            objects: objects_map(self.objects@),
        }
    }
}

impl FileStore {
    /// Well-formedness: the store never keeps two objects under one key.
    pub closed spec fn wf(&self) -> bool {
        unique_keys(self.objects@)
    }

    /// An empty store rooted at `base_path`.
    pub fn new(base_path: String) -> (s: FileStore)
        ensures
            s.wf(),
            s@.base_path == base_path@,
            s@.namespaces == Seq::<Seq<char>>::empty(),
            s@.objects == Map::<(Seq<char>, Seq<char>), Seq<u8>>::empty(),
    {
        let s = FileStore { base_path, namespaces: Vec::new(), objects: Vec::new() };
        proof {
            assert(s@.namespaces =~= Seq::<Seq<char>>::empty());
        }
        s
    }

    /// Ensure a namespace exists; recording it twice is a no-op, so the
    /// call is idempotent.
    #[verifier::loop_isolation(false)]
    pub fn create_folder(&mut self, path: String) -> (r: Result<(), ServiceError>)
        requires
            old(self).wf(),
        ensures
            final(self).wf(),
            r is Ok,
            final(self)@.base_path == old(self)@.base_path,
            final(self)@.objects == old(self)@.objects,
            old(self)@.namespaces.contains(path@) ==> final(self)@.namespaces == old(
                self,
            )@.namespaces,
            !old(self)@.namespaces.contains(path@) ==> final(self)@.namespaces == old(
                self,
            )@.namespaces.push(path@),
            final(self)@.namespaces.contains(path@),
    {
        let n = self.namespaces.len();
        let mut found = false;
        let mut i: usize = 0;
        while i < n
            invariant
                0 <= i <= n,
                !found ==> forall|j: int| 0 <= j < i ==> #[trigger] self.namespaces@[j]@ != path@,
                found ==> old(self)@.namespaces.contains(path@),
            decreases n - i,
        {
            if self.namespaces[i] == path {
                proof {
                    assert(self@.namespaces[i as int] == path@);
                }
                found = true;
            }
            i = i + 1;
        }
        if found {
            return Ok(());
        }
        proof {
            assert(forall|j: int|
                0 <= j < self@.namespaces.len() ==> #[trigger] self@.namespaces[j] != path@);
            assert(!old(self)@.namespaces.contains(path@));
        }
        let ghost prev = self.namespaces@;
        self.namespaces.push(path);
        proof {
            assert(self@.namespaces =~= prev.map_values(|s: String| s@).push(
                self.namespaces@.last()@,
            ));
            assert(self@.namespaces.last() == path@);
        }
        Ok(())
    }

    /// Write a chunk stream under `(path, name)`: the chunks are observed
    /// once each, in order, and the stored object becomes exactly their
    /// concatenation, overwriting any prior content at that key. A
    /// zero-length stream stores a zero-length object.
    #[verifier::loop_isolation(false)]
    pub fn save_file(&mut self, path: &String, name: &String, chunks: &Vec<Vec<u8>>) -> (r: Result<
        (),
        ServiceError,
    >)
        requires
            old(self).wf(),
        ensures
            final(self).wf(),
            r is Ok,
            final(self)@.base_path == old(self)@.base_path,
            final(self)@.namespaces == old(self)@.namespaces,
            final(self)@.objects == old(self)@.objects.insert(
                (path@, name@),
                chunks.deep_view().flatten(),
            ),
    {
        let ghost all = chunks.deep_view();
        let mut data: Vec<u8> = Vec::new();
        let mut j: usize = 0;
        while j < chunks.len()
            invariant
                0 <= j <= chunks.len(),
                all == chunks.deep_view(),
                all.len() == chunks.len(),
                data@ == all.take(j as int).flatten(),
            decreases chunks.len() - j,
        {
            let chunk = &chunks[j];
            let ghost before = data@;
            let mut k: usize = 0;
            while k < chunk.len()
                invariant
                    0 <= k <= chunk.len(),
                    data@ == before + chunk@.take(k as int),
                decreases chunk.len() - k,
            {
                data.push(chunk[k]);
                proof {
                    assert(chunk@.take(k + 1) =~= chunk@.take(k as int).push(chunk@[k as int]));
                }
                k = k + 1;
            }
            proof {
                assert(chunk@.take(chunk.len() as int) =~= chunk@);
                assert(all[j as int] == chunk@);
                assert(all.take(j + 1) =~= all.take(j as int).push(all[j as int]));
                all.take(j as int).lemma_flatten_push(all[j as int]);
            }
            j = j + 1;
        }
        proof {
            assert(all.take(chunks.len() as int) =~= all);
        }
        let obj = StoredObject { path: path.clone(), name: name.clone(), data };
        let n = self.objects.len();
        let mut found = false;
        let mut idx: usize = 0;
        let mut i: usize = 0;
        while i < n
            invariant
                0 <= i <= n,
                !found ==> forall|j2: int|
                    0 <= j2 < i ==> obj_key(#[trigger] self.objects@[j2]) != (path@, name@),
                found ==> idx < n && obj_key(self.objects@[idx as int]) == (path@, name@),
            decreases n - i,
        {
            if self.objects[i].path == *path && self.objects[i].name == *name {
                proof {
                    assert(obj_key(self.objects@[i as int]) == (path@, name@));
                }
                found = true;
                idx = i;
            }
            i = i + 1;
        }
        if found {
            proof {
                lemma_objects_map_update(self.objects@, idx as int, obj);
            }
            self.objects.set(idx, obj);
            return Ok(());
        }
        proof {
            lemma_objects_map_push(self.objects@, obj);
        }
        self.objects.push(obj);
        Ok(())
    }

    /// Read the whole object stored under `(path, name)`; a key that holds
    /// nothing reports `NotFound`.
    #[verifier::loop_isolation(false)]
    pub fn retrieve_file(&self, path: String, name: String) -> (r: Result<Vec<u8>, ServiceError>)
        requires
            self.wf(),
        ensures
            match r {
                Ok(d) => self@.objects.contains_key((path@, name@)) && d@ == self@.objects[(
                    path@,
                    name@,
                )],
                Err(e) => !self@.objects.contains_key((path@, name@)) && e is NotFound,
            },
    {
        proof {
            lemma_objects_map_char(self.objects@);
        }
        let n = self.objects.len();
        let mut i: usize = 0;
        while i < n
            invariant
                self.wf(),
                n == self.objects.len(),
                0 <= i <= n,
                forall|j: int| 0 <= j < i ==> obj_key(#[trigger] self.objects@[j]) != (path@, name@),
            decreases n - i,
        {
            if self.objects[i].path == path && self.objects[i].name == name {
                proof {
                    assert(obj_key(self.objects@[i as int]) == (path@, name@));
                    lemma_objects_map_char(self.objects@);
                }
                return Ok(slice_to_vec(self.objects[i].data.as_slice()));
            }
            i = i + 1;
        }
        Err(ServiceError::NotFound(name))
    }

    /// The names of the objects stored under a path.
    #[verifier::loop_isolation(false)]
    #[verifier::rlimit(50)]
    pub fn list_file_names(&self, path: String) -> (r: Vec<String>)
        requires
            self.wf(),
        ensures
            forall|i: int|
                0 <= i < r@.len() ==> self@.objects.contains_key((path@, #[trigger] r@[i]@)),
            forall|n: Seq<char>|
                #[trigger] self@.objects.contains_key((path@, n)) ==> exists|i: int|
                    0 <= i < r@.len() && #[trigger] r@[i]@ == n,
    {
        proof {
            lemma_objects_map_char(self.objects@);
        }
        let n = self.objects.len();
        let mut r: Vec<String> = Vec::new();
        let mut i: usize = 0;
        while i < n
            invariant
                self.wf(),
                n == self.objects.len(),
                0 <= i <= n,
                forall|m: int|
                    #![trigger r@[m]]
                    0 <= m < r@.len() ==> exists|j: int|
                        0 <= j < i && obj_key(#[trigger] self.objects@[j]) == (path@, r@[m]@),
                forall|j: int|
                    0 <= j < i && (#[trigger] self.objects@[j]).path@ == path@ ==> exists|m: int|
                        0 <= m < r@.len() && #[trigger] r@[m]@ == self.objects@[j].name@,
            decreases n - i,
        {
            if self.objects[i].path == path {
                let ghost old_r = r@;
                r.push(self.objects[i].name.clone());
                proof {
                    assert(obj_key(self.objects@[i as int]) == (path@, r@.last()@));
                    assert forall|j: int|
                        0 <= j < i + 1 && (#[trigger] self.objects@[j]).path@
                            == path@ implies exists|m: int|
                        0 <= m < r@.len() && #[trigger] r@[m]@ == self.objects@[j].name@ by {
                        if j == i {
                            assert(r@[r@.len() - 1]@ == self.objects@[j].name@);
                        } else {
                            let m = choose|m: int|
                                0 <= m < old_r.len() && #[trigger] old_r[m]@
                                    == self.objects@[j].name@;
                            assert(r@[m]@ == self.objects@[j].name@);
                        }
                    }
                    assert forall|m: int|
                        #![trigger r@[m]]
                        0 <= m < r@.len() implies exists|j2: int|
                        0 <= j2 < i + 1 && obj_key(#[trigger] self.objects@[j2]) == (
                        path@,
                        r@[m]@,
                    ) by {
                        if m < r@.len() - 1 {
                            let j2 = choose|j2: int|
                                0 <= j2 < i && obj_key(#[trigger] self.objects@[j2]) == (
                                path@,
                                old_r[m]@,
                            );
                            assert(obj_key(self.objects@[j2]) == (path@, r@[m]@));
                        } else {
                            assert(obj_key(self.objects@[i as int]) == (path@, r@[m]@));
                        }
                    }
                }
            }
            i = i + 1;
        }
        proof {
            lemma_objects_map_char(self.objects@);
            assert forall|nm: Seq<char>| #[trigger]
                self@.objects.contains_key((path@, nm)) implies exists|m: int|
                0 <= m < r@.len() && #[trigger] r@[m]@ == nm by {
                let j = choose|j: int|
                    0 <= j < self.objects@.len() && obj_key(#[trigger] self.objects@[j]) == (
                    path@,
                    nm,
                );
                assert(self.objects@[j].path@ == path@);
            }
        }
        r
    }

    /// The namespaces the store has recorded; the store keeps a flat set of
    /// namespaces under its base path, so the argument does not narrow the
    /// answer.
    #[verifier::loop_isolation(false)]
    pub fn list_folder_names(&self, _path: String) -> (r: Vec<String>)
        ensures
            r@.len() == self@.namespaces.len(),
            forall|i: int| 0 <= i < r@.len() ==> #[trigger] r@[i]@ == self@.namespaces[i],
    {
        let n = self.namespaces.len();
        let mut r: Vec<String> = Vec::new();
        let mut i: usize = 0;
        while i < n
            invariant
                n == self.namespaces.len(),
                0 <= i <= n,
                r@.len() == i,
                forall|j: int| 0 <= j < i ==> #[trigger] r@[j]@ == self.namespaces@[j]@,
            decreases n - i,
        {
            r.push(self.namespaces[i].clone());
            i = i + 1;
        }
        r
    }
}

/// Round trip: after a write of a chunk stream to a key, a read of that
/// key returns exactly the concatenation of the chunks, whatever the store
/// held there before.
pub proof fn lemma_write_read_round_trip(
    objects: Map<(Seq<char>, Seq<char>), Seq<u8>>,
    key: (Seq<char>, Seq<char>),
    chunks: Seq<Seq<u8>>,
)
    ensures
        objects.insert(key, chunks.flatten()).contains_key(key),
        objects.insert(key, chunks.flatten())[key] == chunks.flatten(),
{
}

/// Overwrite replaces: re-uploading to a key stores the new bytes, and a
/// read after the overwrite never returns the previous content.
pub proof fn lemma_overwrite_replaces(
    objects: Map<(Seq<char>, Seq<char>), Seq<u8>>,
    key: (Seq<char>, Seq<char>),
    b1: Seq<u8>,
    b2: Seq<u8>,
)
    requires
        b1 != b2,
    ensures
        objects.insert(key, b1).insert(key, b2)[key] == b2,
        objects.insert(key, b1).insert(key, b2)[key] != b1,
{
}

} // verus!
