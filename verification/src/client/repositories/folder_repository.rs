//! The folder tree of the client: the path from the top to a folder, and
//! the check that a move does not put a folder below itself.
//!
//! Both walk up the parent links of the folders the store can see (those
//! not deleted); here that is a list of folders, looked up by identifier.
use vstd::prelude::*;
use crate::client::models::folder::Folder;
use crate::text::str_eq;

verus! {

/// A folder with its subfolders.
#[derive(Debug)]
pub struct FolderNode {
    pub folder: Folder,
    pub children: Vec<FolderNode>,
}

/// Index of the first folder of `fs` with identifier `id`, or -1.
pub open spec fn index_of(fs: Seq<Folder>, id: Seq<char>) -> int
    decreases fs.len(),
{
    if fs.len() == 0 {
        -1
    } else if index_of(fs.drop_last(), id) >= 0 {
        index_of(fs.drop_last(), id)
    } else if fs.last().id@ == id {
        fs.len() - 1
    } else {
        -1
    }
}

/// What `index_of` finds.
proof fn lemma_index_of(fs: Seq<Folder>, id: Seq<char>)
    ensures
        -1 <= index_of(fs, id) < fs.len(),
        index_of(fs, id) >= 0 ==> fs[index_of(fs, id)].id@ == id,
        index_of(fs, id) == -1 ==> forall|j: int| 0 <= j < fs.len() ==> fs[j].id@ != id,
        index_of(fs, id) >= 0 ==> forall|j: int| 0 <= j < index_of(fs, id) ==> fs[j].id@ != id,
    decreases fs.len(),
{
    if fs.len() > 0 {
        lemma_index_of(fs.drop_last(), id);
        assert forall|j: int| 0 <= j < fs.len() - 1 implies fs[j] == fs.drop_last()[j] by {}
    }
}

/// Index of the first folder with identifier `id`.
fn find_index(fs: &[Folder], id: &str) -> (r: Option<usize>)
    ensures
        match r {
            Some(i) => i == index_of(fs@, id@),
            None => index_of(fs@, id@) == -1,
        },
{
    proof {
        lemma_index_of(fs@, id@);
    }
    let n = fs.len();
    for i in 0..n
        invariant
            n == fs@.len(),
            forall|j: int| 0 <= j < i ==> fs@[j].id@ != id@,
            -1 <= index_of(fs@, id@) < fs@.len(),
            index_of(fs@, id@) >= 0 ==> fs@[index_of(fs@, id@)].id@ == id@,
            index_of(fs@, id@) >= 0 ==> forall|j: int| 0 <= j < index_of(fs@, id@) ==> fs@[j].id@ != id@,
            index_of(fs@, id@) == -1 ==> forall|j: int| 0 <= j < fs@.len() ==> fs@[j].id@ != id@,
    {
        if str_eq(fs[i].id.as_str(), id) {
            return Some(i);
        }
    }
    None
}

/// The identifier one step up from `id`: the parent of the folder with that
/// identifier; `None` when there is no such folder or it has no parent.
pub open spec fn parent_step(fs: Seq<Folder>, id: Seq<char>) -> Option<Seq<char>> {
    let i = index_of(fs, id);
    if i < 0 {
        None
    } else {
        match fs[i].parent_id {
            Some(p) => Some(p@),
            None => None,
        }
    }
}

/// The identifier `k` steps up from `start` (`None` once the walk ended).
pub open spec fn ancestor(fs: Seq<Folder>, start: Seq<char>, k: nat) -> Option<Seq<char>>
    decreases k,
{
    if k == 0 {
        Some(start)
    } else {
        match ancestor(fs, start, (k - 1) as nat) {
            Some(x) => parent_step(fs, x),
            None => None,
        }
    }
}

/// Once the walk ended it stays ended.
proof fn lemma_ancestor_ended(fs: Seq<Folder>, start: Seq<char>, k: nat, m: nat)
    requires
        ancestor(fs, start, k) is None,
        k <= m,
    ensures
        ancestor(fs, start, m) is None,
    decreases m - k,
{
    if k < m {
        lemma_ancestor_ended(fs, start, k, (m - 1) as nat);
    }
}

/// Moving folder `folder_id` under `new_parent_id` makes a cycle: walking up
/// from the new parent reaches the folder, or comes back to a folder it
/// already passed.
pub open spec fn circular(fs: Seq<Folder>, folder_id: Seq<char>, new_parent_id: Seq<char>) -> bool {
    exists|k: nat|
        #![trigger ancestor(fs, new_parent_id, k)]
        ancestor(fs, new_parent_id, k) is Some && (ancestor(fs, new_parent_id, k)->0 == folder_id
            || exists|j: nat| j < k && ancestor(fs, new_parent_id, j) == ancestor(fs, new_parent_id, k))
}

/// Whether moving `folder_id` under `new_parent_id` would make a cycle.
pub fn check_circular_reference(folders: &[Folder], folder_id: &str, new_parent_id: &str) -> (r: bool)
    ensures
        r == circular(folders@, folder_id@, new_parent_id@),
{
    let ghost fs = folders@;
    let ghost start = new_parent_id@;
    let ghost ids = fs.map_values(|f: Folder| f.id@);
    let mut cur: String = new_parent_id.to_owned();
    let mut visited: Vec<String> = Vec::new();
    let ghost mut k: nat = 0;
    loop
        invariant
            fs == folders@,
            start == new_parent_id@,
            ids == fs.map_values(|f: Folder| f.id@),
            visited@.len() == k,
            k <= fs.len(),
            ancestor(fs, start, k) == Some(cur@),
            forall|j: int|
                0 <= j < k ==> ancestor(fs, start, j as nat) == Some(#[trigger] visited@[j]@),
            forall|j: int| 0 <= j < k ==> visited@[j]@ != folder_id@,
            forall|j1: int, j2: int| 0 <= j1 < j2 < k ==> visited@[j1]@ != visited@[j2]@,
            forall|j: int| 0 <= j < k ==> index_of(fs, #[trigger] visited@[j]@) >= 0,
        decreases fs.len() - k,
    {
        if str_eq(cur.as_str(), folder_id) {
            assert(ancestor(fs, start, k) is Some && ancestor(fs, start, k)->0 == folder_id@);
            return true;
        }
        let n = visited.len();
        let mut seen = false;
        for q in 0..n
            invariant
                n == visited@.len(),
                !seen ==> forall|j: int| 0 <= j < q ==> visited@[j]@ != cur@,
                seen ==> exists|j: int| 0 <= j < n && visited@[j]@ == cur@,
        {
            if !seen && str_eq(visited[q].as_str(), cur.as_str()) {
                seen = true;
            }
        }
        if seen {
            proof {
                let j = choose|j: int| 0 <= j < n && visited@[j]@ == cur@;
                assert(ancestor(fs, start, j as nat) == ancestor(fs, start, k));
                assert(ancestor(fs, start, k) is Some && exists|j: nat|
                    j < k && ancestor(fs, start, j) == ancestor(fs, start, k));
            }
            return true;
        }
        proof {
            lemma_index_of(fs, cur@);
        }
        match find_index(folders, cur.as_str()) {
            None => {
                proof {
                    lemma_no_circle_after_end(fs, folder_id@, start, k, visited@);
                }
                return false;
            },
            Some(i) => {
                match &folders[i].parent_id {
                    None => {
                        proof {
                            lemma_no_circle_after_end(fs, folder_id@, start, k, visited@);
                        }
                        return false;
                    },
                    Some(p) => {
                        let next = p.clone();
                        let ghost old_visited = visited@;
                        visited.push(cur);
                        proof {
                            assert(ancestor(fs, start, k + 1) == Some(next@));
                            assert forall|j1: int, j2: int|
                                0 <= j1 < j2 < k + 1 implies visited@[j1]@ != visited@[j2]@ by {
                                if j2 == k {
                                    assert(visited@[j1] == old_visited[j1]);
                                }
                            }
                            lemma_distinct_found_bound(fs, visited@);
                            k = k + 1;
                        }
                        cur = next;
                    },
                }
            },
        }
    }
}

/// A walk that ends at step `k + 1` without having reached the folder or
/// repeated itself in its first `k + 1` steps never does.
proof fn lemma_no_circle_after_end(
    fs: Seq<Folder>,
    folder_id: Seq<char>,
    start: Seq<char>,
    k: nat,
    visited: Seq<String>,
)
    requires
        visited.len() == k,
        ancestor(fs, start, k) is Some,
        ancestor(fs, start, k)->0 != folder_id,
        forall|j: int| 0 <= j < k ==> ancestor(fs, start, j as nat) == Some(#[trigger] visited[j]@),
        forall|j: int| 0 <= j < k ==> visited[j]@ != folder_id,
        forall|j1: int, j2: int| 0 <= j1 < j2 < k ==> visited[j1]@ != visited[j2]@,
        forall|j: int| 0 <= j < k ==> visited[j]@ != ancestor(fs, start, k)->0,
        parent_step(fs, ancestor(fs, start, k)->0) is None,
    ensures
        !circular(fs, folder_id, start),
{
    assert(ancestor(fs, start, k + 1) is None);
    assert forall|m: nat|
        ancestor(fs, start, m) is Some implies !(ancestor(fs, start, m)->0 == folder_id || exists|j: nat|
        j < m && ancestor(fs, start, j) == ancestor(fs, start, m)) by {
        if m > k {
            lemma_ancestor_ended(fs, start, k + 1, m);
        }
        if m < k {
            assert(ancestor(fs, start, m) == Some(visited[m as int]@));
        }
        if exists|j: nat| j < m && ancestor(fs, start, j) == ancestor(fs, start, m) {
            let j = choose|j: nat| j < m && ancestor(fs, start, j) == ancestor(fs, start, m);
            assert(ancestor(fs, start, j) == Some(visited[j as int]@));
            if m < k {
                assert(ancestor(fs, start, m) == Some(visited[m as int]@));
            }
        }
    }
}

/// Distinct identifiers that all name folders of `fs` are no more than the
/// folders.
proof fn lemma_distinct_found_bound(fs: Seq<Folder>, visited: Seq<String>)
    requires
        forall|j1: int, j2: int| 0 <= j1 < j2 < visited.len() ==> visited[j1]@ != visited[j2]@,
        forall|j: int| 0 <= j < visited.len() ==> index_of(fs, #[trigger] visited[j]@) >= 0,
    ensures
        visited.len() <= fs.len(),
{
    let vs = visited.map_values(|s: String| s@);
    let ids = fs.map_values(|f: Folder| f.id@);
    assert(vs.no_duplicates()) by {
        assert forall|a: int, b: int| 0 <= a < vs.len() && 0 <= b < vs.len() && a != b implies vs[a]
            != vs[b] by {
            if a < b {
                assert(visited[a]@ != visited[b]@);
            } else {
                assert(visited[b]@ != visited[a]@);
            }
        }
    }
    vs.unique_seq_to_set();
    ids.lemma_cardinality_of_set();
    assert(vs.to_set().subset_of(ids.to_set())) by {
        assert forall|x: Seq<char>| vs.to_set().contains(x) implies ids.to_set().contains(x) by {
            let a = choose|a: int| 0 <= a < vs.len() && vs[a] == x;
            lemma_index_of(fs, visited[a]@);
            let i = index_of(fs, visited[a]@);
            assert(ids[i] == x);
        }
    }
    vstd::set_lib::lemma_len_subset(vs.to_set(), ids.to_set());
}

/// The walk from `start` lasts at least `m` steps: each of its first `m`
/// identifiers names a folder.
pub open spec fn walk_found(fs: Seq<Folder>, start: Seq<char>, m: nat) -> bool {
    forall|k: nat|
        k < m ==> ancestor(fs, start, k) is Some && index_of(fs, #[trigger] ancestor(fs, start, k)->0)
            >= 0
}

/// The walk from `start` stops after exactly `m` folders.
pub open spec fn walk_length(fs: Seq<Folder>, start: Seq<char>, m: nat) -> bool {
    &&& walk_found(fs, start, m)
    &&& (ancestor(fs, start, m) is None || index_of(fs, ancestor(fs, start, m)->0) < 0)
}

/// The walk up from `start` ends (no cycle on the way).
pub open spec fn walk_ends(fs: Seq<Folder>, start: Seq<char>) -> bool {
    exists|m: nat| #[trigger] walk_length(fs, start, m)
}

/// The path from the top down to folder `id`: the folders met walking up
/// from it, top first. The walk must end: on a cycle it would not.
pub fn get_path(folders: &[Folder], id: &str) -> (r: Vec<Folder>)
    requires
        walk_ends(folders@, id@),
    ensures
        walk_length(folders@, id@, r@.len() as nat),
        forall|j: int|
            0 <= j < r@.len() ==> #[trigger] r@[j] == folders@[index_of(
                folders@,
                ancestor(folders@, id@, (r@.len() - 1 - j) as nat)->0,
            )],
{
    let ghost fs = folders@;
    let ghost start = id@;
    let ghost m = choose|m: nat| #[trigger] walk_length(fs, start, m);
    let mut rev: Vec<Folder> = Vec::new();
    let mut cur: Option<String> = Some(id.to_owned());
    let ghost mut k: nat = 0;
    proof {
        lemma_walk_length_unique(fs, start, m);
    }
    loop
        invariant
            fs == folders@,
            start == id@,
            walk_length(fs, start, m),
            forall|m2: nat| #[trigger] walk_found(fs, start, m2) ==> m2 <= m,
            k <= m,
            rev@.len() == k,
            match cur {
                Some(c) => ancestor(fs, start, k) == Some(c@),
                None => ancestor(fs, start, k) is None,
            },
            forall|j: int|
                0 <= j < k ==> #[trigger] rev@[j] == fs[index_of(fs, ancestor(fs, start, j as nat)->0)],
        ensures
            k == m,
            rev@.len() == m,
            forall|j: int|
                0 <= j < m ==> #[trigger] rev@[j] == fs[index_of(fs, ancestor(fs, start, j as nat)->0)],
        decreases m - k,
    {
        let c = match cur {
            None => {
                proof {
                    lemma_walk_stops(fs, start, m, k);
                }
                break;
            },
            Some(c) => c,
        };
        proof {
            lemma_index_of(fs, c@);
        }
        match find_index(folders, c.as_str()) {
            None => {
                proof {
                    lemma_walk_stops(fs, start, m, k);
                }
                break;
            },
            Some(i) => {
                proof {
                    assert(walk_found(fs, start, k + 1)) by {
                        assert forall|q: nat| q < k + 1 implies ancestor(fs, start, q) is Some && index_of(
                            fs,
                            #[trigger] ancestor(fs, start, q)->0,
                        ) >= 0 by {
                            if q < k {
                                assert(walk_found(fs, start, m));
                            }
                        }
                    }
                }
                let f = copy_folder(&folders[i]);
                cur = clone_parent(&folders[i].parent_id);
                rev.push(f);
                proof {
                    k = k + 1;
                }
            },
        }
    }
    let mut path: Vec<Folder> = Vec::new();
    let n = rev.len();
    let mut j = n;
    while j > 0
        invariant
            j <= n,
            n == rev@.len(),
            path@.len() == n - j,
            forall|q: int| 0 <= q < n - j ==> #[trigger] path@[q] == rev@[n - 1 - q],
        decreases j,
    {
        j = j - 1;
        path.push(copy_folder(&rev[j]));
    }
    path
}

/// No walk lasts longer than its length.
proof fn lemma_walk_length_unique(fs: Seq<Folder>, start: Seq<char>, m: nat)
    requires
        walk_length(fs, start, m),
    ensures
        forall|m2: nat| #[trigger] walk_found(fs, start, m2) ==> m2 <= m,
{
    assert forall|m2: nat| #[trigger] walk_found(fs, start, m2) implies m2 <= m by {
        if m2 > m {
            assert(ancestor(fs, start, m) is Some && index_of(fs, ancestor(fs, start, m)->0) >= 0);
        }
    }
}

/// A walk that stops at step `k` has length `k`.
proof fn lemma_walk_stops(fs: Seq<Folder>, start: Seq<char>, m: nat, k: nat)
    requires
        walk_length(fs, start, m),
        k <= m,
        ancestor(fs, start, k) is None || index_of(fs, ancestor(fs, start, k)->0) < 0,
    ensures
        k == m,
{
    if k < m {
        assert(ancestor(fs, start, k) is Some && index_of(fs, #[trigger] ancestor(fs, start, k)->0) >= 0);
    }
}

/// A copy of a folder.
pub fn copy_folder(f: &Folder) -> (r: Folder)
    ensures
        r == *f,
{
    Folder {
        id: f.id.clone(),
        name: f.name.clone(),
        parent_id: clone_parent(&f.parent_id),
        icon: clone_parent(&f.icon),
        color: clone_parent(&f.color),
        sort_order: f.sort_order,
        is_deleted: f.is_deleted,
        created_at: f.created_at,
        updated_at: f.updated_at,
        deleted_at: f.deleted_at,
        server_ver: f.server_ver,
        is_dirty: f.is_dirty,
        last_synced_at: f.last_synced_at,
    }
}

fn clone_parent(o: &Option<String>) -> (r: Option<String>)
    ensures
        r == *o,
{
    crate::server::models::clone_opt_string(o)
}


/// Moving a folder under itself is always refused as a cycle.
pub proof fn lemma_move_under_itself_circular(fs: Seq<Folder>, id: Seq<char>)
    ensures
        circular(fs, id, id),
{
    assert(ancestor(fs, id, 0) == Some(id));
}

} // verus!
