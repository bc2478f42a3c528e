//! The path resolver: the single choke point that derives a content-store
//! key from a user's root folder and a file's folder. Upload and download
//! both go through it, so the two can never diverge.

use vstd::prelude::*;
use vstd::string::StringExecFns;

verus! {

/// The storage path of a file's folder inside a user's namespace: the root
/// itself when the file sits in the root folder, otherwise the root joined
/// with the folder id as a single path segment.
pub open spec fn resolved_path(user_folder: Seq<char>, file_folder: Seq<char>) -> Seq<char> {
    if file_folder == user_folder {
        user_folder
    } else {
        user_folder + seq!['/'] + file_folder
    }
}

/// An id that is usable as a single path segment: it contains no separator.
pub open spec fn slash_free(s: Seq<char>) -> bool {
    forall|i: int| 0 <= i < s.len() ==> #[trigger] s[i] != '/'
}

/// Derive the on-disk path for a file's folder inside a user's namespace.
pub fn build_full_path(user_folder: &str, file_folder: &str) -> (r: String)
    ensures
        r@ == resolved_path(user_folder@, file_folder@),
{
    let uf = user_folder.to_owned();
    let ff = file_folder.to_owned();
    if uf == ff {
        uf
    } else {
        let mut s = uf;
        s.append("/");
        s.append(file_folder);
        proof {
            reveal_strlit("/");
            assert(("/")@ =~= seq!['/']);
            assert(s@ =~= user_folder@ + seq!['/'] + file_folder@);
        }
        s
    }
}

/// Tenant path separation: distinct roots with slash-free ids never resolve
/// to the same path, whatever folder each side names. Every id the store
/// generates is slash-free, so no two users' namespaces can ever collide on
/// a content-store key.
pub proof fn lemma_resolved_path_injective(
    r1: Seq<char>,
    f1: Seq<char>,
    r2: Seq<char>,
    f2: Seq<char>,
)
    requires
        r1 != r2,
        slash_free(r1),
        slash_free(f1),
        slash_free(r2),
        slash_free(f2),
    ensures
        resolved_path(r1, f1) != resolved_path(r2, f2),
{
    let p1 = resolved_path(r1, f1);
    let p2 = resolved_path(r2, f2);
    if p1 == p2 {
        if f1 == r1 && f2 == r2 {
            assert(false);
        } else if f1 == r1 && f2 != r2 {
            assert(p2[r2.len() as int] == '/');
            assert(slash_free(p1));
            assert(false);
        } else if f1 != r1 && f2 == r2 {
            assert(p1[r1.len() as int] == '/');
            assert(slash_free(p2));
            assert(false);
        } else {
            if r1.len() == r2.len() {
                assert forall|i: int| 0 <= i < r1.len() implies r1[i] == r2[i] by {
                    assert(p1[i] == r1[i]);
                    assert(p2[i] == r2[i]);
                }
                assert(r1 =~= r2);
                assert(false);
            } else if r1.len() < r2.len() {
                assert(p1[r1.len() as int] == '/');
                assert(p2[r1.len() as int] == r2[r1.len() as int]);
                assert(false);
            } else {
                assert(p2[r2.len() as int] == '/');
                assert(p1[r2.len() as int] == r1[r2.len() as int]);
                assert(false);
            }
        }
    }
}

} // verus!
