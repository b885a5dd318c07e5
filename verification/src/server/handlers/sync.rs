//! The unified sync endpoint: a client pushes its changes and pulls what
//! changed on the server since its last sync.
//!
//! The handler alternates database work and decisions. The decisions stand
//! here, each a function of what the database answered: whether a pushed
//! record conflicts with the server's copy, in which order the pushed
//! folders are written, how many snapshots of a note are pruned, how the
//! changed records are split into upserted and deleted ones, and the counts
//! of the response.
use vstd::prelude::*;
use crate::text::str_eq;
use crate::server::handlers::{coded_error, ErrorResponse};
use crate::server::models::{
    clone_opt_string,
    ConflictResolutionStrategy, Folder, Note, NoteTagRelation, NoteVersion, Tag, Workspace,
};

verus! {

/// One request of the unified sync: the client's changes and the time of
/// its last sync.
#[derive(Debug)]
pub struct SyncRequest {
    /// Unix time of the client's last sync; records changed after it are pulled.
    pub last_sync_at: Option<i64>,
    /// The workspace to synchronise; the account's default one when absent.
    pub workspace_id: Option<String>,
    pub workspaces: Option<Vec<Workspace>>,
    pub notes: Option<Vec<Note>>,
    pub folders: Option<Vec<Folder>>,
    pub tags: Option<Vec<Tag>>,
    pub snapshots: Option<Vec<NoteVersion>>,
    pub note_tags: Option<Vec<NoteTagRelation>>,
    /// What to do with a pushed note that is older than the server's copy.
    pub conflict_resolution: ConflictResolutionStrategy,
    /// The device that synchronises (used for the sync lock).
    pub device_id: Option<String>,
}

/// A pushed record that was not written because the server's copy is newer.
#[derive(Debug, Clone)]
pub struct ConflictInfo {
    pub id: String,
    /// "workspace", "note", "folder", "tag" or "snapshot".
    pub entity_type: String,
    pub local_version: i32,
    pub server_version: i32,
    pub title: String,
}

/// The answer to a sync request.
#[derive(Debug)]
pub struct SyncResponse {
    /// "success", or "partial_success" when some pushed record conflicted.
    pub status: String,
    pub server_time: i64,
    pub last_sync_at: i64,
    pub upserted_workspaces: Vec<Workspace>,
    pub upserted_notes: Vec<Note>,
    pub upserted_folders: Vec<Folder>,
    pub upserted_tags: Vec<Tag>,
    pub upserted_snapshots: Vec<NoteVersion>,
    pub upserted_note_tags: Vec<NoteTagRelation>,
    pub deleted_note_ids: Vec<String>,
    pub deleted_folder_ids: Vec<String>,
    pub deleted_tag_ids: Vec<String>,
    pub deleted_workspace_ids: Vec<String>,
    pub pushed_workspaces: usize,
    pub pushed_notes: usize,
    pub pushed_folders: usize,
    pub pushed_tags: usize,
    pub pushed_snapshots: usize,
    pub pushed_note_tags: usize,
    pub pushed_total: usize,
    pub pulled_workspaces: usize,
    pub pulled_notes: usize,
    pub pulled_folders: usize,
    pub pulled_tags: usize,
    pub pulled_snapshots: usize,
    pub pulled_note_tags: usize,
    pub pulled_total: usize,
    pub conflicts: Vec<ConflictInfo>,
}

// ---------------------------------------------------------------------
// Version conflicts
// ---------------------------------------------------------------------

/// A pushed record conflicts when the server holds a copy of it with a
/// higher version than the one the client based its change on.
pub open spec fn version_conflict(existing_ver: Option<i32>, local_ver: i32) -> bool {
    match existing_ver {
        Some(v) => v > local_ver,
        None => false,
    }
}

/// Whether a pushed record with version `local_ver` conflicts with the
/// server's copy (`existing_ver`, absent when the server has none).
pub fn has_version_conflict(existing_ver: Option<i32>, local_ver: i32) -> (r: bool)
    ensures
        r == version_conflict(existing_ver, local_ver),
{
    match existing_ver {
        Some(v) => v > local_ver,
        None => false,
    }
}

/// What the server does with one pushed record.
#[derive(Debug, Clone, Copy, PartialEq, Eq, Structural)]
pub enum PushAction {
    /// Insert or update the record, with version `local_ver + 1`.
    Upsert,
    /// Record a conflict and leave the server's copy as it is.
    Conflict,
    /// Save the pushed note as a new conflict copy (with the server's
    /// version), record a conflict and leave the server's copy as it is.
    ConflictCopy,
}

/// The action for a pushed workspace, folder, tag or snapshot: the server's
/// copy wins a conflict.
pub fn decide_push(existing_ver: Option<i32>, local_ver: i32) -> (r: PushAction)
    ensures
        r == (if version_conflict(existing_ver, local_ver) {
            PushAction::Conflict
        } else {
            PushAction::Upsert
        }),
{
    if has_version_conflict(existing_ver, local_ver) {
        PushAction::Conflict
    } else {
        PushAction::Upsert
    }
}

/// The action the strategy takes on a conflicting note.
pub open spec fn strategy_action(strategy: ConflictResolutionStrategy) -> PushAction {
    match strategy {
        ConflictResolutionStrategy::KeepServer => PushAction::Conflict,
        ConflictResolutionStrategy::KeepLocal => PushAction::Upsert,
        ConflictResolutionStrategy::KeepBoth => PushAction::ConflictCopy,
        ConflictResolutionStrategy::ManualMerge => PushAction::Conflict,
    }
}

/// The action for a pushed note: without a conflict it is written; with one
/// the strategy decides (keep the server's copy, overwrite it, keep both,
/// or leave it for a manual merge).
pub fn decide_note_push(
    strategy: ConflictResolutionStrategy,
    existing_ver: Option<i32>,
    local_ver: i32,
) -> (r: PushAction)
    ensures
        r == (if version_conflict(existing_ver, local_ver) {
            strategy_action(strategy)
        } else {
            PushAction::Upsert
        }),
{
    if !has_version_conflict(existing_ver, local_ver) {
        return PushAction::Upsert;
    }
    match strategy {
        ConflictResolutionStrategy::KeepServer => PushAction::Conflict,
        ConflictResolutionStrategy::KeepLocal => PushAction::Upsert,
        ConflictResolutionStrategy::KeepBoth => PushAction::ConflictCopy,
        ConflictResolutionStrategy::ManualMerge => PushAction::Conflict,
    }
}

/// The tally of the pushed records of one kind, kept as the server goes
/// through them: how many it has seen, written, and recorded as conflicts.
#[derive(Debug, Clone, Copy)]
pub struct PushTally {
    pub seen: usize,
    pub written: usize,
    pub conflicts: usize,
}

impl PushTally {
    /// Every record seen was either written or recorded as a conflict.
    pub open spec fn balanced(&self) -> bool {
        self.written + self.conflicts == self.seen
    }

    /// The tally before the first record.
    pub fn new() -> (r: PushTally)
        ensures
            r.seen == 0,
            r.written == 0,
            r.conflicts == 0,
            r.balanced(),
    {
        PushTally { seen: 0, written: 0, conflicts: 0 }
    }

    /// Counts one more record, on which `action` was taken: a written one
    /// when it is upserted, else a conflict (kept-both copies included).
    pub fn record(&mut self, action: PushAction)
        requires
            old(self).seen < usize::MAX,
            old(self).balanced(),
        ensures
            final(self).seen == old(self).seen + 1,
            final(self).written == old(self).written + if action == PushAction::Upsert {
                1usize
            } else {
                0usize
            },
            final(self).conflicts == old(self).conflicts + if action == PushAction::Upsert {
                0usize
            } else {
                1usize
            },
            final(self).balanced(),
    {
        self.seen = self.seen + 1;
        match action {
            PushAction::Upsert => {
                self.written = self.written + 1;
            },
            _ => {
                self.conflicts = self.conflicts + 1;
            },
        }
    }
}

/// The version a written record gets: one more than the pushed version.
pub fn pushed_server_ver(local_ver: i32) -> (r: i32)
    requires
        local_ver < i32::MAX,
    ensures
        r == local_ver + 1,
{
    local_ver + 1
}

/// The conflict record of a pushed record.
pub fn conflict_info(
    id: &str,
    entity_type: &str,
    local_version: i32,
    server_version: i32,
    title: &str,
) -> (r: ConflictInfo)
    ensures
        r.id@ == id@,
        r.entity_type@ == entity_type@,
        r.local_version == local_version,
        r.server_version == server_version,
        r.title@ == title@,
{
    ConflictInfo {
        id: id.to_owned(),
        entity_type: entity_type.to_owned(),
        local_version,
        server_version,
        title: title.to_owned(),
    }
}

/// The title a conflict reports for a snapshot: its name, else its title.
pub fn snapshot_conflict_title(s: &NoteVersion) -> (r: String)
    ensures
        r@ == match s.snapshot_name {
            Some(n) => n@,
            None => s.title@,
        },
{
    match &s.snapshot_name {
        Some(n) => n.clone(),
        None => s.title.clone(),
    }
}

/// Suffix of the title of a conflict copy.
pub open spec fn conflict_copy_suffix() -> Seq<char> {
    " (冲突副本-本地)"@
}

/// Title of the conflict copy of a note titled `title`.
pub fn conflict_copy_title(title: &str) -> (r: String)
    ensures
        r@ == title@ + conflict_copy_suffix(),
{
    let mut s = title.to_owned();
    s.append(" (冲突副本-本地)");
    s
}

/// The note a kept-both conflict stores beside the server's copy: the
/// pushed note under a new identifier `copy_id` and the conflict-copy
/// title, with the server's version `server_ver`, owned by `user_id` in
/// `workspace_id`, written by `device_id` (described as `described`); every
/// other field is the pushed note's.
pub fn conflict_copy_note(
    n: &Note,
    copy_id: String,
    user_id: &str,
    workspace_id: &Option<String>,
    server_ver: i32,
    device_id: &Option<String>,
    described: &str,
) -> (r: Note)
    ensures
        r.id == copy_id,
        r.user_id@ == user_id@,
        r.workspace_id == *workspace_id,
        r.title@ == n.title@ + conflict_copy_suffix(),
        r.content@ == n.content@,
        r.folder_id == n.folder_id,
        r.is_deleted == n.is_deleted,
        r.deleted_at == n.deleted_at,
        r.created_at == n.created_at,
        r.updated_at == n.updated_at,
        r.server_ver == server_ver,
        r.device_id == *device_id,
        r.updated_by_device matches Some(d) && d@ == described@,
        r.excerpt == n.excerpt,
        r.markdown_cache == n.markdown_cache,
        r.is_favorite == n.is_favorite,
        r.is_pinned == n.is_pinned,
        r.author == n.author,
        r.word_count == n.word_count,
        r.read_time_minutes == n.read_time_minutes,
{
    Note {
        id: copy_id,
        user_id: user_id.to_owned(),
        workspace_id: clone_opt_string(workspace_id),
        title: conflict_copy_title(n.title.as_str()),
        content: n.content.clone(),
        folder_id: clone_opt_string(&n.folder_id),
        is_deleted: n.is_deleted,
        deleted_at: n.deleted_at,
        created_at: n.created_at,
        updated_at: n.updated_at,
        server_ver,
        device_id: clone_opt_string(device_id),
        updated_by_device: Some(described.to_owned()),
        excerpt: clone_opt_string(&n.excerpt),
        markdown_cache: clone_opt_string(&n.markdown_cache),
        is_favorite: n.is_favorite,
        is_pinned: n.is_pinned,
        author: clone_opt_string(&n.author),
        word_count: n.word_count,
        read_time_minutes: n.read_time_minutes,
    }
}

/// The text of an optional borrowed string, or `default` when it is absent.
pub open spec fn or_default(o: Option<&str>, default: Seq<char>) -> Seq<char> {
    match o {
        Some(s) => s@,
        None => default,
    }
}

/// Description of the device that wrote a record:
/// "<device id> (<user agent>)", with "unknown" and "Unknown Device" for
/// what is absent.
pub fn device_description(device_id: Option<&str>, user_agent: Option<&str>) -> (r: String)
    ensures
        r@ == or_default(device_id, "unknown"@) + " ("@ + or_default(user_agent, "Unknown Device"@)
            + ")"@,
{
    let mut s = match device_id {
        Some(d) => d.to_owned(),
        None => "unknown".to_owned(),
    };
    s.append(" (");
    match user_agent {
        Some(u) => s.append(u),
        None => s.append("Unknown Device"),
    }
    s.append(")");
    s
}


// ---------------------------------------------------------------------
// Order of the pushed folders
// ---------------------------------------------------------------------

/// One visit of a pushed folder: `index` into the pushed list, and whether
/// it conflicted (and was left as it is) or was written.
#[derive(Debug, Clone, Copy, PartialEq, Eq, Structural)]
pub struct FolderStep {
    pub index: usize,
    pub conflict: bool,
}

/// A folder at the top of the tree: no parent, or an empty parent id.
pub open spec fn is_root_folder(f: Folder) -> bool {
    match f.parent_id {
        Some(p) => p@.len() == 0,
        None => true,
    }
}

/// Folder `i` is the first of the pushed folders with its id (later ones
/// with the same id are not visited).
pub open spec fn first_occurrence(fs: Seq<Folder>, i: int) -> bool {
    forall|j: int| 0 <= j < i ==> fs[j].id@ != fs[i].id@
}

/// Some step of `steps` wrote the folder with identifier `id`.
pub open spec fn written_in(fs: Seq<Folder>, steps: Seq<FolderStep>, id: Seq<char>) -> bool {
    exists|k: int|
        0 <= k < steps.len() && !(#[trigger] steps[k]).conflict && fs[steps[k].index as int].id@
            == id
}

/// Folder `i` may be visited after `steps`: it is a root, or its parent
/// already exists on the server (`known[i]`), or its parent was written by
/// one of `steps`.
pub open spec fn placeable(fs: Seq<Folder>, known: Seq<bool>, steps: Seq<FolderStep>, i: int) -> bool {
    is_root_folder(fs[i]) || known[i] || written_in(fs, steps, fs[i].parent_id->0@)
}

/// Folder `i` is visited by one of `steps`.
pub open spec fn planned(steps: Seq<FolderStep>, i: int) -> bool {
    exists|k: int| 0 <= k < steps.len() && (#[trigger] steps[k]).index == i
}

/// Each step visits a first occurrence that may be visited after the steps
/// before it, no folder is visited twice, and a step conflicts exactly when
/// the server's copy is newer.
pub open spec fn sound_folder_steps(
    fs: Seq<Folder>,
    existing: Seq<Option<i32>>,
    known: Seq<bool>,
    steps: Seq<FolderStep>,
) -> bool {
    &&& forall|k: int|
        #![trigger steps[k]]
        0 <= k < steps.len() ==> {
            &&& steps[k].index < fs.len()
            &&& first_occurrence(fs, steps[k].index as int)
            &&& steps[k].conflict == version_conflict(
                existing[steps[k].index as int],
                fs[steps[k].index as int].server_ver,
            )
            &&& placeable(fs, known, steps.take(k), steps[k].index as int)
        }
    &&& forall|k1: int, k2: int|
        #![trigger steps[k1], steps[k2]]
        0 <= k1 < k2 < steps.len() ==> steps[k1].index != steps[k2].index
}

/// The order in which pushed folders are visited: sound, and complete —
/// every first occurrence left out cannot be visited, because it is no
/// root, its parent is not on the server and no step wrote its parent.
pub open spec fn valid_folder_plan(
    fs: Seq<Folder>,
    existing: Seq<Option<i32>>,
    known: Seq<bool>,
    steps: Seq<FolderStep>,
) -> bool {
    &&& sound_folder_steps(fs, existing, known, steps)
    &&& forall|i: int|
        0 <= i < fs.len() && first_occurrence(fs, i) && !planned(steps, i) ==> !placeable(
            fs,
            known,
            steps,
            i,
        )
}

/// Number of `false` entries.
pub open spec fn count_false(s: Seq<bool>) -> nat
    decreases s.len(),
{
    if s.len() == 0 {
        0
    } else {
        count_false(s.drop_last()) + if s.last() {
            0nat
        } else {
            1nat
        }
    }
}

/// Setting a `false` entry to `true` removes one `false`.
proof fn lemma_count_false_set(s: Seq<bool>, i: int)
    requires
        0 <= i < s.len(),
        !s[i],
    ensures
        count_false(s.update(i, true)) + 1 == count_false(s),
    decreases s.len(),
{
    let t = s.update(i, true);
    if i == s.len() - 1 {
        assert(t.drop_last() =~= s.drop_last());
    } else {
        assert(t.drop_last() =~= s.drop_last().update(i, true));
        lemma_count_false_set(s.drop_last(), i);
    }
}

/// For each pushed folder, whether it is the first with its id.
fn first_occurrences(folders: &[Folder]) -> (r: Vec<bool>)
    ensures
        r@.len() == folders@.len(),
        forall|i: int| 0 <= i < folders@.len() ==> r@[i] == first_occurrence(folders@, i),
{
    let n = folders.len();
    let mut r: Vec<bool> = Vec::new();
    for i in 0..n
        invariant
            n == folders@.len(),
            r@.len() == i,
            forall|k: int| 0 <= k < i ==> r@[k] == first_occurrence(folders@, k),
    {
        let mut first = true;
        for j in 0..i
            invariant
                n == folders@.len(),
                i < n,
                first == (forall|k: int| 0 <= k < j ==> folders@[k].id@ != folders@[i as int].id@),
        {
            if folders[j].id == folders[i].id {
                first = false;
            }
        }
        r.push(first);
    }
    r
}

/// Whether a step of `steps` wrote the folder with identifier `id`.
fn written_in_steps(folders: &[Folder], steps: &Vec<FolderStep>, id: &str) -> (r: bool)
    requires
        forall|k: int| 0 <= k < steps@.len() ==> (#[trigger] steps@[k]).index < folders@.len(),
    ensures
        r == written_in(folders@, steps@, id@),
{
    let m = steps.len();
    for k in 0..m
        invariant
            m == steps@.len(),
            forall|k: int| 0 <= k < steps@.len() ==> (#[trigger] steps@[k]).index < folders@.len(),
            forall|q: int|
                0 <= q < k ==> !(!(#[trigger] steps@[q]).conflict && folders@[steps@[q].index as int].id@
                    == id@),
    {
        let s = steps[k];
        if !s.conflict && str_eq(folders[s.index].id.as_str(), id) {
            assert(!steps@[k as int].conflict && folders@[steps@[k as int].index as int].id@ == id@);
            return true;
        }
    }
    false
}

/// Whether folder `i` may be visited after `steps`.
fn can_place(folders: &[Folder], known: &[bool], steps: &Vec<FolderStep>, i: usize) -> (r: bool)
    requires
        i < folders@.len(),
        known@.len() == folders@.len(),
        forall|k: int| 0 <= k < steps@.len() ==> (#[trigger] steps@[k]).index < folders@.len(),
    ensures
        r == placeable(folders@, known@, steps@, i as int),
{
    match &folders[i].parent_id {
        None => true,
        Some(p) => {
            if p.as_str().is_empty() || known[i] {
                true
            } else {
                written_in_steps(folders, steps, p.as_str())
            }
        },
    }
}

/// The order in which the pushed folders are visited, parents before
/// children.
///
/// `existing[i]` is the version of the server's copy of `folders[i]` (absent
/// when the server has none) and `known[i]` whether the parent of
/// `folders[i]` exists on the server; both as they were before the sync.
/// Rounds over the list visit every folder that can be visited, until a
/// round visits none: folders whose parent is missing, or that form a
/// cycle, are never visited.
pub fn plan_folder_upserts(
    folders: &[Folder],
    existing: &[Option<i32>],
    known: &[bool],
) -> (steps: Vec<FolderStep>)
    requires
        existing@.len() == folders@.len(),
        known@.len() == folders@.len(),
    ensures
        valid_folder_plan(folders@, existing@, known@, steps@),
{
    let n = folders.len();
    let first = first_occurrences(folders);
    let mut placed: Vec<bool> = Vec::new();
    for i in 0..n
        invariant
            placed@.len() == i,
            forall|k: int| 0 <= k < i ==> !placed@[k],
    {
        placed.push(false);
    }
    let mut steps: Vec<FolderStep> = Vec::new();
    loop
        invariant
            n == folders@.len(),
            existing@.len() == n,
            known@.len() == n,
            first@.len() == n,
            forall|i: int| 0 <= i < n ==> first@[i] == first_occurrence(folders@, i),
            placed@.len() == n,
            forall|i: int| 0 <= i < n ==> (placed@[i] <==> planned(steps@, i)),
            sound_folder_steps(folders@, existing@, known@, steps@),
        ensures
            valid_folder_plan(folders@, existing@, known@, steps@),
        decreases count_false(placed@),
    {
        let ghost start = count_false(placed@);
        let ghost start_steps = steps@;
        let mut progress = false;
        for i in 0..n
            invariant
                n == folders@.len(),
                existing@.len() == n,
                known@.len() == n,
                first@.len() == n,
                forall|i: int| 0 <= i < n ==> first@[i] == first_occurrence(folders@, i),
                placed@.len() == n,
                forall|i: int| 0 <= i < n ==> (placed@[i] <==> planned(steps@, i)),
                sound_folder_steps(folders@, existing@, known@, steps@),
                progress ==> count_false(placed@) < start,
                !progress ==> count_false(placed@) == start && steps@ == start_steps,
                !progress ==> forall|j: int|
                    0 <= j < i && first_occurrence(folders@, j) && !planned(steps@, j) ==> !placeable(
                        folders@,
                        known@,
                        steps@,
                        j,
                    ),
        {
            if first[i] && !placed[i] && can_place(folders, known, &steps, i) {
                let step = FolderStep {
                    index: i,
                    conflict: has_version_conflict(existing[i], folders[i].server_ver),
                };
                let ghost old_steps = steps@;
                let ghost old_placed = placed@;
                steps.push(step);
                placed.set(i, true);
                proof {
                    lemma_count_false_set(old_placed, i as int);
                    assert(steps@.take(old_steps.len() as int) =~= old_steps);
                    assert forall|k: int| 0 <= k < old_steps.len() implies steps@.take(k)
                        =~= old_steps.take(k) by {}
                    assert(steps@[old_steps.len() as int] == step);
                    assert forall|j: int| 0 <= j < n implies (placed@[j] <==> planned(
                        steps@,
                        j,
                    )) by {
                        if j == i {
                            assert(steps@[old_steps.len() as int].index == i);
                        } else if planned(steps@, j) {
                            let k = choose|k: int|
                                0 <= k < steps@.len() && (#[trigger] steps@[k]).index == j;
                            assert(old_steps[k].index == j);
                        } else if planned(old_steps, j) {
                            let k = choose|k: int|
                                0 <= k < old_steps.len() && (#[trigger] old_steps[k]).index == j;
                            assert(steps@[k].index == j);
                        }
                    }
                    assert forall|k1: int, k2: int|
                        0 <= k1 < k2 < steps@.len() implies steps@[k1].index != steps@[k2].index by {
                        if k2 == old_steps.len() {
                            assert(!planned(old_steps, i as int));
                            assert(old_steps[k1].index != i);
                        }
                    }
                }
                progress = true;
            }
        }
        if !progress {
            break;
        }
    }
    steps
}


/// The first `m` folders a sound plan visits are visited by every valid
/// plan of the same folders.
proof fn lemma_plan_prefix_included(
    fs: Seq<Folder>,
    existing: Seq<Option<i32>>,
    known: Seq<bool>,
    p1: Seq<FolderStep>,
    p2: Seq<FolderStep>,
    m: int,
)
    requires
        sound_folder_steps(fs, existing, known, p1),
        valid_folder_plan(fs, existing, known, p2),
        0 <= m <= p1.len(),
    ensures
        forall|k: int| 0 <= k < m ==> planned(p2, #[trigger] p1[k].index as int),
    decreases m,
{
    if m > 0 {
        lemma_plan_prefix_included(fs, existing, known, p1, p2, m - 1);
        let k = m - 1;
        let i = p1[k].index as int;
        assert(placeable(fs, known, p1.take(k), i));
        if !planned(p2, i) {
            assert(!placeable(fs, known, p2, i));
            let parent = fs[i].parent_id->0@;
            assert(written_in(fs, p1.take(k), parent));
            let q = choose|q: int|
                0 <= q < p1.take(k).len() && !(#[trigger] p1.take(k)[q]).conflict
                    && fs[p1.take(k)[q].index as int].id@ == parent;
            assert(p1.take(k)[q] == p1[q]);
            assert(planned(p2, p1[q].index as int));
            let r = choose|r: int| 0 <= r < p2.len() && (#[trigger] p2[r]).index == p1[q].index;
            assert(!p2[r].conflict);
            assert(written_in(fs, p2, parent));
        }
    }
}

/// Whatever order the server visits the pushed folders in, the same
/// folders are visited: any two valid plans of the same pushed folders
/// visit the same ones.
pub proof fn lemma_folder_plans_agree(
    fs: Seq<Folder>,
    existing: Seq<Option<i32>>,
    known: Seq<bool>,
    p1: Seq<FolderStep>,
    p2: Seq<FolderStep>,
)
    requires
        valid_folder_plan(fs, existing, known, p1),
        valid_folder_plan(fs, existing, known, p2),
    ensures
        forall|i: int| planned(p1, i) <==> planned(p2, i),
{
    lemma_plan_prefix_included(fs, existing, known, p1, p2, p1.len() as int);
    lemma_plan_prefix_included(fs, existing, known, p2, p1, p2.len() as int);
    assert forall|i: int| planned(p1, i) implies planned(p2, i) by {
        let k = choose|k: int| 0 <= k < p1.len() && (#[trigger] p1[k]).index == i;
        assert(planned(p2, p1[k].index as int));
    }
    assert forall|i: int| planned(p2, i) implies planned(p1, i) by {
        let k = choose|k: int| 0 <= k < p2.len() && (#[trigger] p2[k]).index == i;
        assert(planned(p1, p2[k].index as int));
    }
}

/// A pushed folder whose parent is neither absent nor already on the
/// server is written only after its parent was written.
pub proof fn lemma_parent_written_first(
    fs: Seq<Folder>,
    existing: Seq<Option<i32>>,
    known: Seq<bool>,
    steps: Seq<FolderStep>,
    k: int,
)
    requires
        valid_folder_plan(fs, existing, known, steps),
        0 <= k < steps.len(),
        !is_root_folder(fs[steps[k].index as int]),
        !known[steps[k].index as int],
    ensures
        exists|q: int|
            0 <= q < k && !(#[trigger] steps[q]).conflict && fs[steps[q].index as int].id@
                == fs[steps[k].index as int].parent_id->0@,
{
    let parent = fs[steps[k].index as int].parent_id->0@;
    assert(written_in(fs, steps.take(k), parent));
    let q = choose|q: int|
        0 <= q < steps.take(k).len() && !(#[trigger] steps.take(k)[q]).conflict
            && fs[steps.take(k)[q].index as int].id@ == parent;
    assert(steps.take(k)[q] == steps[q]);
}


// ---------------------------------------------------------------------
// Snapshots per note
// ---------------------------------------------------------------------

/// Most snapshots the server keeps of one note.
pub const MAX_SNAPSHOTS_PER_NOTE: i64 = 20i64;

/// Number of snapshots in `ss` that belong to note `note_id`.
pub open spec fn snapshots_of(ss: Seq<NoteVersion>, note_id: Seq<char>) -> nat
    decreases ss.len(),
{
    if ss.len() == 0 {
        0
    } else {
        snapshots_of(ss.drop_last(), note_id) + if ss.last().note_id@ == note_id {
            1nat
        } else {
            0nat
        }
    }
}

/// `groups` holds each note of `ss` once, with its number of snapshots.
pub open spec fn groups_of(ss: Seq<NoteVersion>, groups: Seq<(String, usize)>) -> bool {
    &&& forall|k: int|
        #![trigger groups[k]]
        0 <= k < groups.len() ==> groups[k].1 == snapshots_of(ss, groups[k].0@) && groups[k].1 > 0
    &&& forall|k1: int, k2: int|
        #![trigger groups[k1], groups[k2]]
        0 <= k1 < k2 < groups.len() ==> groups[k1].0@ != groups[k2].0@
    &&& forall|i: int|
        #![trigger ss[i]]
        0 <= i < ss.len() ==> exists|k: int|
            0 <= k < groups.len() && (#[trigger] groups[k]).0@ == ss[i].note_id@
}

/// The pushed snapshots grouped by note: each note once, with how many of
/// its snapshots were pushed.
pub fn snapshot_counts_by_note(snapshots: &[NoteVersion]) -> (r: Vec<(String, usize)>)
    ensures
        groups_of(snapshots@, r@),
{
    let n = snapshots.len();
    let mut groups: Vec<(String, usize)> = Vec::new();
    for i in 0..n
        invariant
            n == snapshots@.len(),
            groups_of(snapshots@.take(i as int), groups@),
            forall|k: int| 0 <= k < groups@.len() ==> (#[trigger] groups@[k]).1 <= i,
    {
        let ghost pre = snapshots@.take(i as int);
        let ghost post = snapshots@.take(i + 1);
        assert(post.drop_last() =~= pre);
        assert(post.last() == snapshots@[i as int]);
        let nid = &snapshots[i].note_id;
        let m = groups.len();
        let mut found: Option<usize> = None;
        for k in 0..m
            invariant
                m == groups@.len(),
                match found {
                    Some(f) => f < m && groups@[f as int].0@ == nid@,
                    None => forall|q: int| 0 <= q < k ==> (#[trigger] groups@[q]).0@ != nid@,
                },
        {
            if found.is_none() && groups[k].0 == *nid {
                found = Some(k);
            }
        }
        let ghost old_groups = groups@;
        match found {
            Some(f) => {
                let c = groups[f].1;
                groups.set(f, (groups[f].0.clone(), c + 1));
                proof {
                    assert forall|k: int| 0 <= k < groups@.len() implies (#[trigger] groups@[k]).1
                        == snapshots_of(post, groups@[k].0@) && groups@[k].1 > 0 by {
                        assert(snapshots_of(post, groups@[k].0@) == snapshots_of(pre, groups@[k].0@)
                            + if snapshots@[i as int].note_id@ == groups@[k].0@ {
                            1nat
                        } else {
                            0nat
                        });
                        if k != f {
                            assert(old_groups[k].0@ != old_groups[f as int].0@);
                        }
                    }
                    assert forall|j: int| 0 <= j < post.len() implies exists|k: int|
                        0 <= k < groups@.len() && (#[trigger] groups@[k]).0@ == (#[trigger] post[j]).note_id@ by {
                        if j < i {
                            assert(post[j] == pre[j]);
                            let k = choose|k: int|
                                0 <= k < old_groups.len() && (#[trigger] old_groups[k]).0@
                                    == pre[j].note_id@;
                            assert(groups@[k].0@ == old_groups[k].0@);
                        } else {
                            assert(groups@[f as int].0@ == post[j].note_id@);
                        }
                    }
                }
            },
            None => {
                groups.push((nid.clone(), 1));
                proof {
                    assert(snapshots_of(pre, nid@) == 0) by {
                        if snapshots_of(pre, nid@) > 0 {
                            lemma_snapshots_of_positive(pre, nid@);
                            let j = choose|j: int| 0 <= j < pre.len() && pre[j].note_id@ == nid@;
                            let k = choose|k: int|
                                0 <= k < old_groups.len() && (#[trigger] old_groups[k]).0@
                                    == pre[j].note_id@;
                            assert(old_groups[k].0@ != nid@);
                        }
                    }
                    assert forall|k: int| 0 <= k < groups@.len() implies (#[trigger] groups@[k]).1
                        == snapshots_of(post, groups@[k].0@) && groups@[k].1 > 0 by {
                        assert(snapshots_of(post, groups@[k].0@) == snapshots_of(pre, groups@[k].0@)
                            + if snapshots@[i as int].note_id@ == groups@[k].0@ {
                            1nat
                        } else {
                            0nat
                        });
                        if k < old_groups.len() {
                            assert(groups@[k] == old_groups[k]);
                        }
                    }
                    assert forall|k1: int, k2: int|
                        0 <= k1 < k2 < groups@.len() implies (#[trigger] groups@[k1]).0@
                        != (#[trigger] groups@[k2]).0@ by {
                        if k2 == old_groups.len() {
                            assert(groups@[k1] == old_groups[k1]);
                        }
                    }
                    assert forall|j: int| 0 <= j < post.len() implies exists|k: int|
                        0 <= k < groups@.len() && (#[trigger] groups@[k]).0@ == (#[trigger] post[j]).note_id@ by {
                        if j < i {
                            assert(post[j] == pre[j]);
                            let k = choose|k: int|
                                0 <= k < old_groups.len() && (#[trigger] old_groups[k]).0@
                                    == pre[j].note_id@;
                            assert(groups@[k] == old_groups[k]);
                        } else {
                            assert(groups@[old_groups.len() as int].0@ == post[j].note_id@);
                        }
                    }
                }
            },
        }
    }
    assert(snapshots@.take(n as int) =~= snapshots@);
    groups
}

/// A note with snapshots in `ss` has one of them in `ss`.
proof fn lemma_snapshots_of_positive(ss: Seq<NoteVersion>, note_id: Seq<char>)
    requires
        snapshots_of(ss, note_id) > 0,
    ensures
        exists|j: int| 0 <= j < ss.len() && ss[j].note_id@ == note_id,
    decreases ss.len(),
{
    if ss.last().note_id@ != note_id {
        lemma_snapshots_of_positive(ss.drop_last(), note_id);
        let j = choose|j: int| 0 <= j < ss.drop_last().len() && ss.drop_last()[j].note_id@ == note_id;
        assert(ss[j] == ss.drop_last()[j]);
    }
}

/// A pushed snapshot is kept when fewer than `MAX_SNAPSHOTS_PER_NOTE`
/// snapshots of its note come after it in the request: of each note the
/// request keeps its last (newest) snapshots, at most the cap.
pub open spec fn snapshot_kept(ss: Seq<NoteVersion>, i: int) -> bool {
    snapshots_of(ss.subrange(i + 1, ss.len() as int), ss[i].note_id@) < MAX_SNAPSHOTS_PER_NOTE
}

/// Number of kept snapshots of note `x` from position `a` on.
pub open spec fn kept_of(ss: Seq<NoteVersion>, x: Seq<char>, a: int) -> nat
    decreases ss.len() - a,
{
    if a < 0 || a >= ss.len() {
        0
    } else {
        kept_of(ss, x, a + 1) + if ss[a].note_id@ == x && snapshot_kept(ss, a) {
            1nat
        } else {
            0nat
        }
    }
}

/// Counting the snapshots of a note can start with the first one.
proof fn lemma_snapshots_of_front(e: NoteVersion, t: Seq<NoteVersion>, x: Seq<char>)
    ensures
        snapshots_of(seq![e] + t, x) == snapshots_of(t, x) + if e.note_id@ == x {
            1nat
        } else {
            0nat
        },
    decreases t.len(),
{
    let s = seq![e] + t;
    if t.len() > 0 {
        lemma_snapshots_of_front(e, t.drop_last(), x);
        assert(s.drop_last() =~= seq![e] + t.drop_last());
        assert(s.last() == t.last());
    } else {
        assert(s.drop_last() =~= Seq::<NoteVersion>::empty());
        assert(s.last() == e);
        assert(snapshots_of(Seq::<NoteVersion>::empty(), x) == 0);
    }
}

/// From position `a` on, the kept snapshots of a note are its snapshots,
/// capped.
proof fn lemma_kept_of(ss: Seq<NoteVersion>, x: Seq<char>, a: int)
    requires
        0 <= a <= ss.len(),
    ensures
        kept_of(ss, x, a) == if snapshots_of(ss.subrange(a, ss.len() as int), x)
            < MAX_SNAPSHOTS_PER_NOTE {
            snapshots_of(ss.subrange(a, ss.len() as int), x)
        } else {
            MAX_SNAPSHOTS_PER_NOTE as nat
        },
    decreases ss.len() - a,
{
    let n = ss.len() as int;
    if a == n {
        assert(ss.subrange(a, n) =~= Seq::<NoteVersion>::empty());
    } else {
        lemma_kept_of(ss, x, a + 1);
        assert(ss.subrange(a, n) =~= seq![ss[a]] + ss.subrange(a + 1, n));
        lemma_snapshots_of_front(ss[a], ss.subrange(a + 1, n), x);
    }
}

/// The request keeps at most `MAX_SNAPSHOTS_PER_NOTE` snapshots of a note:
/// all of them when it brings no more, else exactly the cap.
pub proof fn lemma_kept_snapshots_capped(ss: Seq<NoteVersion>, x: Seq<char>)
    ensures
        kept_of(ss, x, 0) == if snapshots_of(ss, x) < MAX_SNAPSHOTS_PER_NOTE {
            snapshots_of(ss, x)
        } else {
            MAX_SNAPSHOTS_PER_NOTE as nat
        },
        kept_of(ss, x, 0) <= MAX_SNAPSHOTS_PER_NOTE,
{
    lemma_kept_of(ss, x, 0);
    assert(ss.subrange(0, ss.len() as int) =~= ss);
}

/// Number of snapshots of note `note` in `ss[from..to]`.
fn count_note_in(ss: &[NoteVersion], note: &str, from: usize, to: usize) -> (r: usize)
    requires
        from <= to <= ss@.len(),
    ensures
        r == snapshots_of(ss@.subrange(from as int, to as int), note@),
{
    let mut cnt: usize = 0;
    let mut j = from;
    while j < to
        invariant
            from <= j <= to <= ss@.len(),
            cnt == snapshots_of(ss@.subrange(from as int, j as int), note@),
            cnt <= j - from,
        decreases to - j,
    {
        assert(ss@.subrange(from as int, j + 1).drop_last() =~= ss@.subrange(from as int, j as int));
        if str_eq(ss[j].note_id.as_str(), note) {
            cnt = cnt + 1;
        }
        j = j + 1;
    }
    cnt
}

/// For each pushed snapshot, whether it is kept (see `snapshot_kept`).
pub fn kept_snapshots(ss: &[NoteVersion]) -> (r: Vec<bool>)
    ensures
        r@.len() == ss@.len(),
        forall|i: int| 0 <= i < ss@.len() ==> r@[i] == snapshot_kept(ss@, i),
{
    let n = ss.len();
    let mut r: Vec<bool> = Vec::new();
    for i in 0..n
        invariant
            n == ss@.len(),
            r@.len() == i,
            forall|k: int| 0 <= k < i ==> r@[k] == snapshot_kept(ss@, k),
    {
        let later = count_note_in(ss, ss[i].note_id.as_str(), i + 1, n);
        r.push(later < 20);
    }
    r
}

/// How many snapshots of note `note` the request keeps: its snapshots,
/// capped at `MAX_SNAPSHOTS_PER_NOTE`.
pub fn kept_count_of_note(ss: &[NoteVersion], note: &str) -> (r: i64)
    ensures
        r == kept_of(ss@, note@, 0),
        0 <= r <= MAX_SNAPSHOTS_PER_NOTE,
{
    proof {
        lemma_kept_snapshots_capped(ss@, note@);
        assert(ss@.subrange(0, ss@.len() as int) =~= ss@);
    }
    let all = count_note_in(ss, note, 0, ss.len());
    if all < 20 {
        all as i64
    } else {
        MAX_SNAPSHOTS_PER_NOTE
    }
}

/// How many of the oldest stored snapshots of a note are deleted before the
/// `kept` snapshots of the request are saved beside the `current` stored
/// ones: the excess of both together over `MAX_SNAPSHOTS_PER_NOTE`. Since
/// the request keeps at most the cap, that is never more than what is
/// stored, and at most the cap remain.
pub fn snapshots_to_prune(current: i64, kept: i64) -> (r: i64)
    requires
        0 <= current,
        0 <= kept <= MAX_SNAPSHOTS_PER_NOTE,
        current + kept <= i64::MAX,
    ensures
        r == (if current + kept > MAX_SNAPSHOTS_PER_NOTE {
            current + kept - MAX_SNAPSHOTS_PER_NOTE
        } else {
            0
        }),
        0 <= r <= current,
        current - r + kept <= MAX_SNAPSHOTS_PER_NOTE,
{
    let total = current + kept;
    if total > MAX_SNAPSHOTS_PER_NOTE {
        total - MAX_SNAPSHOTS_PER_NOTE
    } else {
        0
    }
}


// ---------------------------------------------------------------------
// Changed records: upserted or deleted, pulled or echoed
// ---------------------------------------------------------------------

/// A synchronised record, known by its identifier.
pub trait Keyed: Sized {
    /// The record's identifier.
    spec fn key(&self) -> Seq<char>;

    /// The record's identifier.
    fn key_str(&self) -> (r: &str)
        ensures
            r@ == self.key(),
    ;
}

/// A record that is deleted by a flag rather than removed.
pub trait SoftDeleted: Keyed {
    /// The record is marked deleted.
    spec fn deleted(&self) -> bool;

    /// Whether the record is marked deleted.
    fn is_deleted_record(&self) -> (r: bool)
        ensures
            r == self.deleted(),
    ;

    /// The record's identifier, taking the record.
    fn into_key(self) -> (r: String)
        ensures
            r@ == self.key(),
    ;
}

impl Keyed for Workspace {
    open spec fn key(&self) -> Seq<char> {
        self.id@
    }

    fn key_str(&self) -> (r: &str) {
        self.id.as_str()
    }
}

impl SoftDeleted for Workspace {
    open spec fn deleted(&self) -> bool {
        self.is_deleted
    }

    fn is_deleted_record(&self) -> (r: bool) {
        self.is_deleted
    }

    fn into_key(self) -> (r: String) {
        self.id
    }
}

impl Keyed for Note {
    open spec fn key(&self) -> Seq<char> {
        self.id@
    }

    fn key_str(&self) -> (r: &str) {
        self.id.as_str()
    }
}

impl SoftDeleted for Note {
    open spec fn deleted(&self) -> bool {
        self.is_deleted
    }

    fn is_deleted_record(&self) -> (r: bool) {
        self.is_deleted
    }

    fn into_key(self) -> (r: String) {
        self.id
    }
}

impl Keyed for Folder {
    open spec fn key(&self) -> Seq<char> {
        self.id@
    }

    fn key_str(&self) -> (r: &str) {
        self.id.as_str()
    }
}

impl SoftDeleted for Folder {
    open spec fn deleted(&self) -> bool {
        self.is_deleted
    }

    fn is_deleted_record(&self) -> (r: bool) {
        self.is_deleted
    }

    fn into_key(self) -> (r: String) {
        self.id
    }
}

impl Keyed for Tag {
    open spec fn key(&self) -> Seq<char> {
        self.id@
    }

    fn key_str(&self) -> (r: &str) {
        self.id.as_str()
    }
}

impl SoftDeleted for Tag {
    open spec fn deleted(&self) -> bool {
        self.is_deleted
    }

    fn is_deleted_record(&self) -> (r: bool) {
        self.is_deleted
    }

    fn into_key(self) -> (r: String) {
        self.id
    }
}

impl Keyed for NoteVersion {
    open spec fn key(&self) -> Seq<char> {
        self.id@
    }

    fn key_str(&self) -> (r: &str) {
        self.id.as_str()
    }
}

/// The records of `s` that are not marked deleted, in order.
pub open spec fn live_records<T: SoftDeleted>(s: Seq<T>) -> Seq<T>
    decreases s.len(),
{
    if s.len() == 0 {
        Seq::empty()
    } else if s.last().deleted() {
        live_records(s.drop_last())
    } else {
        live_records(s.drop_last()).push(s.last())
    }
}

/// The identifiers of the records of `s` that are marked deleted, in order.
pub open spec fn deleted_keys<T: SoftDeleted>(s: Seq<T>) -> Seq<Seq<char>>
    decreases s.len(),
{
    if s.len() == 0 {
        Seq::empty()
    } else if s.last().deleted() {
        deleted_keys(s.drop_last()).push(s.last().key())
    } else {
        deleted_keys(s.drop_last())
    }
}

/// The texts of a sequence of strings.
pub open spec fn texts(s: Seq<String>) -> Seq<Seq<char>> {
    s.map_values(|x: String| x@)
}

/// Splits the records that changed on the server into those to send
/// (not deleted) and the identifiers of the deleted ones, keeping order.
pub fn split_deleted<T: SoftDeleted>(all: Vec<T>) -> (r: (Vec<T>, Vec<String>))
    ensures
        r.0@ == live_records(all@),
        texts(r.1@) == deleted_keys(all@),
{
    let ghost all_seq = all@;
    let mut rev: Vec<T> = Vec::new();
    let mut all = all;
    while all.len() > 0
        invariant
            all@ + rev@.reverse() == all_seq,
        decreases all@.len(),
    {
        let x = all.pop().unwrap();
        proof {
            assert(rev@.push(x).reverse() =~= seq![x] + rev@.reverse());
        }
        rev.push(x);
    }
    assert(rev@.reverse() =~= all_seq);
    let mut live: Vec<T> = Vec::new();
    let mut gone: Vec<String> = Vec::new();
    let ghost n = all_seq.len();
    while rev.len() > 0
        invariant
            n == all_seq.len(),
            rev@.len() <= n,
            all_seq == all_seq.take(n - rev@.len()) + rev@.reverse(),
            live@ == live_records(all_seq.take(n - rev@.len())),
            texts(gone@) == deleted_keys(all_seq.take(n - rev@.len())),
        decreases rev@.len(),
    {
        let ghost done = n - rev@.len();
        let ghost old_rev = rev@;
        let x = rev.pop().unwrap();
        proof {
            assert(old_rev.reverse() =~= seq![x] + rev@.reverse());
            assert(all_seq[done] == x);
            assert(all_seq.take(done + 1).drop_last() =~= all_seq.take(done));
            assert(all_seq.take(done + 1).last() == x);
            assert(all_seq =~= all_seq.take(done + 1) + rev@.reverse());
        }
        if x.is_deleted_record() {
            let k = x.into_key();
            gone.push(k);
            proof {
                assert(texts(gone@) =~= texts(gone@.drop_last()).push(k@));
            }
        } else {
            live.push(x);
        }
    }
    assert(all_seq.take(n as int) =~= all_seq);
    (live, gone)
}

/// The identifiers of the records, in order.
pub fn keys_of<T: Keyed>(items: &[T]) -> (r: Vec<String>)
    ensures
        texts(r@) == items@.map_values(|x: T| x.key()),
{
    let n = items.len();
    let mut r: Vec<String> = Vec::new();
    for i in 0..n
        invariant
            n == items@.len(),
            r@.len() == i,
            texts(r@) == items@.take(i as int).map_values(|x: T| x.key()),
    {
        let k = items[i].key_str().to_owned();
        let ghost old_r = r@;
        r.push(k);
        proof {
            assert(k@ == items@[i as int].key());
            assert forall|j: int| 0 <= j <= i implies texts(r@)[j] == items@.take(i + 1).map_values(
                |x: T| x.key(),
            )[j] by {
                if j < i {
                    assert(r@[j] == old_r[j]);
                    assert(texts(old_r)[j] == items@.take(i as int).map_values(|x: T| x.key())[j]);
                }
            }
            assert(texts(r@) =~= items@.take(i + 1).map_values(|x: T| x.key()));
        }
    }
    assert(items@.take(n as int) =~= items@);
    r
}

/// Number of records of `s` whose identifier is not among `pushed`.
pub open spec fn count_unpushed<T: Keyed>(s: Seq<T>, pushed: Seq<Seq<char>>) -> nat
    decreases s.len(),
{
    if s.len() == 0 {
        0
    } else {
        count_unpushed(s.drop_last(), pushed) + if pushed.contains(s.last().key()) {
            0nat
        } else {
            1nat
        }
    }
}

/// Whether `key` is one of `keys`.
fn contains_key(keys: &[String], key: &str) -> (r: bool)
    ensures
        r == texts(keys@).contains(key@),
{
    let n = keys.len();
    for i in 0..n
        invariant
            n == keys@.len(),
            forall|j: int| 0 <= j < i ==> keys@[j]@ != key@,
    {
        if str_eq(keys[i].as_str(), key) {
            assert(texts(keys@)[i as int] == key@);
            return true;
        }
    }
    assert forall|j: int| 0 <= j < texts(keys@).len() implies texts(keys@)[j] != key@ by {
        assert(texts(keys@)[j] == keys@[j]@);
    }
    false
}

/// How many of the records sent back are really new to the client: those
/// it did not push in this very sync.
pub fn pulled_count<T: Keyed>(items: &[T], pushed: &[String]) -> (r: usize)
    ensures
        r == count_unpushed(items@, texts(pushed@)),
{
    let n = items.len();
    let mut c: usize = 0;
    for i in 0..n
        invariant
            n == items@.len(),
            c == count_unpushed(items@.take(i as int), texts(pushed@)),
            c <= i,
    {
        proof {
            assert(items@.take(i + 1).drop_last() =~= items@.take(i as int));
        }
        if !contains_key(pushed, items[i].key_str()) {
            c = c + 1;
        }
    }
    assert(items@.take(n as int) =~= items@);
    c
}


/// The tag links of `s` that are not marked deleted, in order.
pub open spec fn live_links(s: Seq<NoteTagRelation>) -> Seq<NoteTagRelation>
    decreases s.len(),
{
    if s.len() == 0 {
        Seq::empty()
    } else if s.last().is_deleted {
        live_links(s.drop_last())
    } else {
        live_links(s.drop_last()).push(s.last())
    }
}

/// The tag links to send: those not marked deleted, in order.
pub fn live_note_tags(all: Vec<NoteTagRelation>) -> (r: Vec<NoteTagRelation>)
    ensures
        r@ == live_links(all@),
{
    let ghost all_seq = all@;
    let mut rev: Vec<NoteTagRelation> = Vec::new();
    let mut all = all;
    while all.len() > 0
        invariant
            all@ + rev@.reverse() == all_seq,
        decreases all@.len(),
    {
        let x = all.pop().unwrap();
        proof {
            assert(rev@.push(x).reverse() =~= seq![x] + rev@.reverse());
        }
        rev.push(x);
    }
    assert(rev@.reverse() =~= all_seq);
    let mut live: Vec<NoteTagRelation> = Vec::new();
    let ghost n = all_seq.len();
    while rev.len() > 0
        invariant
            n == all_seq.len(),
            rev@.len() <= n,
            all_seq == all_seq.take(n - rev@.len()) + rev@.reverse(),
            live@ == live_links(all_seq.take(n - rev@.len())),
        decreases rev@.len(),
    {
        let ghost done = n - rev@.len();
        let ghost old_rev = rev@;
        let x = rev.pop().unwrap();
        proof {
            assert(old_rev.reverse() =~= seq![x] + rev@.reverse());
            assert(all_seq[done] == x);
            assert(all_seq.take(done + 1).drop_last() =~= all_seq.take(done));
            assert(all_seq.take(done + 1).last() == x);
            assert(all_seq =~= all_seq.take(done + 1) + rev@.reverse());
        }
        if !x.is_deleted {
            live.push(x);
        }
    }
    assert(all_seq.take(n as int) =~= all_seq);
    live
}

/// The key of a tag link: its note and its tag.
pub open spec fn link_key(l: NoteTagRelation) -> (Seq<char>, Seq<char>) {
    (l.note_id@, l.tag_id@)
}

/// Number of links of `s` whose key is not the key of a link of `pushed`.
pub open spec fn count_unpushed_links(s: Seq<NoteTagRelation>, pushed: Seq<NoteTagRelation>) -> nat
    decreases s.len(),
{
    if s.len() == 0 {
        0
    } else {
        count_unpushed_links(s.drop_last(), pushed) + if exists|j: int|
            0 <= j < pushed.len() && link_key(#[trigger] pushed[j]) == link_key(s.last()) {
            0nat
        } else {
            1nat
        }
    }
}

/// How many of the tag links sent back the client did not push itself.
pub fn pulled_link_count(items: &[NoteTagRelation], pushed: &[NoteTagRelation]) -> (r: usize)
    ensures
        r == count_unpushed_links(items@, pushed@),
{
    let n = items.len();
    let mut c: usize = 0;
    for i in 0..n
        invariant
            n == items@.len(),
            c == count_unpushed_links(items@.take(i as int), pushed@),
            c <= i,
    {
        proof {
            assert(items@.take(i + 1).drop_last() =~= items@.take(i as int));
        }
        let m = pushed.len();
        let mut seen = false;
        for j in 0..m
            invariant
                m == pushed@.len(),
                i < n == items@.len(),
                seen == exists|q: int|
                    0 <= q < j && link_key(#[trigger] pushed@[q]) == link_key(items@[i as int]),
        {
            if !seen && pushed[j].note_id == items[i].note_id && pushed[j].tag_id == items[i].tag_id {
                seen = true;
            }
            proof {
                if !seen {
                    assert(link_key(pushed@[j as int]) != link_key(items@[i as int]));
                }
            }
        }
        assert(items@.take(i + 1).last() == items@[i as int]);
        if !seen {
            c = c + 1;
        }
    }
    assert(items@.take(n as int) =~= items@);
    c
}

// ---------------------------------------------------------------------
// The response
// ---------------------------------------------------------------------

/// Sum of the numbers of `s`.
pub open spec fn sum_of(s: Seq<usize>) -> int
    decreases s.len(),
{
    if s.len() == 0 {
        0
    } else {
        sum_of(s.drop_last()) + s.last()
    }
}

/// The sum of a few counts (the totals of pushed and pulled records).
pub fn total_count(counts: &[usize]) -> (r: usize)
    requires
        sum_of(counts@) <= usize::MAX,
    ensures
        r == sum_of(counts@),
{
    let n = counts.len();
    let mut t: usize = 0;
    for i in 0..n
        invariant
            n == counts@.len(),
            sum_of(counts@) <= usize::MAX,
            t == sum_of(counts@.take(i as int)),
    {
        proof {
            assert(counts@.take(i + 1).drop_last() =~= counts@.take(i as int));
            lemma_sum_prefix(counts@, i + 1);
        }
        t = t + counts[i];
    }
    assert(counts@.take(n as int) =~= counts@);
    t
}

/// The sum of a prefix of counts is at most the sum of all of them.
proof fn lemma_sum_prefix(s: Seq<usize>, k: int)
    requires
        0 <= k <= s.len(),
    ensures
        sum_of(s.take(k)) <= sum_of(s),
    decreases s.len() - k,
{
    if k < s.len() {
        lemma_sum_prefix(s, k + 1);
        assert(s.take(k + 1).drop_last() =~= s.take(k));
    } else {
        assert(s.take(k) =~= s);
    }
}

/// Status of a sync: "success", or "partial_success" when some pushed
/// record conflicted.
pub fn sync_status(conflict_count: usize) -> (r: String)
    ensures
        r@ == (if conflict_count == 0 {
            "success"@
        } else {
            "partial_success"@
        }),
{
    if conflict_count == 0 {
        "success".to_owned()
    } else {
        "partial_success".to_owned()
    }
}

/// The counts recorded in the sync history, each as the database's 32-bit
/// integer (wrapping as the cast does).
#[derive(Debug, Clone, Copy, PartialEq, Eq, Structural)]
pub struct HistoryCounts {
    /// Pushed notes and folders.
    pub pushed: i32,
    /// Notes and folders sent back, upserted or deleted.
    pub pulled: i32,
    /// Deleted notes and folders sent back.
    pub deleted: i32,
    pub conflicts: i32,
}

/// The counts of the history record of a sync.
pub fn history_counts(
    notes_pushed: usize,
    folders_pushed: usize,
    notes_upserted: usize,
    folders_upserted: usize,
    notes_deleted: usize,
    folders_deleted: usize,
    conflicts: usize,
) -> (r: HistoryCounts)
    requires
        notes_pushed + folders_pushed <= usize::MAX,
        notes_upserted + folders_upserted + notes_deleted + folders_deleted <= usize::MAX,
    ensures
        r.pushed == (notes_pushed + folders_pushed) as i32,
        r.pulled == (notes_upserted + folders_upserted + notes_deleted + folders_deleted) as i32,
        r.deleted == (notes_deleted + folders_deleted) as i32,
        r.conflicts == conflicts as i32,
{
    HistoryCounts {
        pushed: (notes_pushed + folders_pushed) as i32,
        pulled: (notes_upserted + folders_upserted + notes_deleted + folders_deleted) as i32,
        deleted: (notes_deleted + folders_deleted) as i32,
        conflicts: conflicts as i32,
    }
}

// ---------------------------------------------------------------------
// Refusals
// ---------------------------------------------------------------------

/// The answer to a request for a workspace, given how many live workspaces
/// with that id the account owns (or the database's error): owned when the
/// count is positive, else 403 `WORKSPACE_NOT_OWNED`; a database error is
/// 500 `WORKSPACE_VERIFICATION_ERROR`.
pub fn check_workspace_owned(owned_count: Result<i64, String>, workspace_id: &str) -> (r: Result<(), ErrorResponse>)
    ensures
        match owned_count {
            Ok(c) => if c > 0 {
                r is Ok
            } else {
                r is Err && coded_error(
                    r->Err_0,
                    403,
                    "WORKSPACE_NOT_OWNED"@,
                    "工作空间 "@ + workspace_id@ + " 不属于当前用户"@,
                )
            },
            Err(_) => r is Err && coded_error(
                r->Err_0,
                500,
                "WORKSPACE_VERIFICATION_ERROR"@,
                "验证工作空间归属失败"@,
            ),
        },
{
    match owned_count {
        Ok(c) => {
            if c > 0 {
                Ok(())
            } else {
                let mut m = "工作空间 ".to_owned();
                m.append(workspace_id);
                m.append(" 不属于当前用户");
                Err(ErrorResponse::new_with_code(m.as_str(), 403, "WORKSPACE_NOT_OWNED"))
            }
        },
        Err(_) => Err(
            ErrorResponse::new_with_code("验证工作空间归属失败", 500, "WORKSPACE_VERIFICATION_ERROR"),
        ),
    }
}

/// The answer when the sync lock is refused: 409 `SYNC_IN_PROGRESS`.
pub fn sync_in_progress_error() -> (r: ErrorResponse)
    ensures
        coded_error(r, 409, "SYNC_IN_PROGRESS"@, "该用户的其他工作空间正在同步，请稍后重试"@),
{
    ErrorResponse::new_with_code("该用户的其他工作空间正在同步，请稍后重试", 409, "SYNC_IN_PROGRESS")
}


/// Splitting loses and invents nothing: every changed record is either
/// sent or reported deleted.
pub proof fn lemma_split_partitions<T: SoftDeleted>(all: Seq<T>)
    ensures
        live_records(all).len() + deleted_keys(all).len() == all.len(),
    decreases all.len(),
{
    if all.len() > 0 {
        lemma_split_partitions(all.drop_last());
    }
}

/// The split is a filter: the records sent are the records of `all` not
/// marked deleted, in order, and the identifiers reported deleted are those
/// of the records marked deleted, in order.
proof fn lemma_split_as_filter<T: SoftDeleted>(all: Seq<T>)
    ensures
        live_records(all) == all.filter(|x: T| !x.deleted()),
        deleted_keys(all) == all.filter(|x: T| x.deleted()).map_values(|x: T| x.key()),
    decreases all.len(),
{
    reveal(Seq::filter);
    if all.len() > 0 {
        lemma_split_as_filter(all.drop_last());
        let d = all.drop_last().filter(|x: T| x.deleted());
        assert(d.push(all.last()).map_values(|x: T| x.key()) =~= d.map_values(|x: T| x.key()).push(
            all.last().key(),
        ));
    } else {
        assert(all.filter(|x: T| x.deleted()).map_values(|x: T| x.key()) =~= Seq::<Seq<char>>::empty());
    }
}

/// Splitting the folders that changed goes by their `is_deleted` flag:
/// the folders sent are, in order, exactly those whose flag is off, and the
/// identifiers reported deleted are, in order, those of the folders whose
/// flag is on.
pub proof fn lemma_split_folders_by_flag(all: Seq<Folder>)
    ensures
        live_records(all) == all.filter(|x: Folder| !x.is_deleted),
        deleted_keys(all) == all.filter(|x: Folder| x.is_deleted).map_values(|x: Folder| x.id@),
{
    lemma_split_as_filter(all);
    assert((|x: Folder| !x.deleted()) =~= (|x: Folder| !x.is_deleted));
    assert((|x: Folder| x.deleted()) =~= (|x: Folder| x.is_deleted));
    assert((|x: Folder| x.key()) =~= (|x: Folder| x.id@));
}

/// Splitting the notes that changed goes by their `is_deleted` flag:
/// the notes sent are, in order, exactly those whose flag is off, and the
/// identifiers reported deleted are, in order, those of the notes whose
/// flag is on.
pub proof fn lemma_split_notes_by_flag(all: Seq<Note>)
    ensures
        live_records(all) == all.filter(|x: Note| !x.is_deleted),
        deleted_keys(all) == all.filter(|x: Note| x.is_deleted).map_values(|x: Note| x.id@),
{
    lemma_split_as_filter(all);
    assert((|x: Note| !x.deleted()) =~= (|x: Note| !x.is_deleted));
    assert((|x: Note| x.deleted()) =~= (|x: Note| x.is_deleted));
    assert((|x: Note| x.key()) =~= (|x: Note| x.id@));
}

/// Splitting the tags that changed goes by their `is_deleted` flag:
/// the tags sent are, in order, exactly those whose flag is off, and the
/// identifiers reported deleted are, in order, those of the tags whose
/// flag is on.
pub proof fn lemma_split_tags_by_flag(all: Seq<Tag>)
    ensures
        live_records(all) == all.filter(|x: Tag| !x.is_deleted),
        deleted_keys(all) == all.filter(|x: Tag| x.is_deleted).map_values(|x: Tag| x.id@),
{
    lemma_split_as_filter(all);
    assert((|x: Tag| !x.deleted()) =~= (|x: Tag| !x.is_deleted));
    assert((|x: Tag| x.deleted()) =~= (|x: Tag| x.is_deleted));
    assert((|x: Tag| x.key()) =~= (|x: Tag| x.id@));
}

/// Splitting the workspaces that changed goes by their `is_deleted` flag:
/// the workspaces sent are, in order, exactly those whose flag is off, and the
/// identifiers reported deleted are, in order, those of the workspaces whose
/// flag is on.
pub proof fn lemma_split_workspaces_by_flag(all: Seq<Workspace>)
    ensures
        live_records(all) == all.filter(|x: Workspace| !x.is_deleted),
        deleted_keys(all) == all.filter(|x: Workspace| x.is_deleted).map_values(|x: Workspace| x.id@),
{
    lemma_split_as_filter(all);
    assert((|x: Workspace| !x.deleted()) =~= (|x: Workspace| !x.is_deleted));
    assert((|x: Workspace| x.deleted()) =~= (|x: Workspace| x.is_deleted));
    assert((|x: Workspace| x.key()) =~= (|x: Workspace| x.id@));
}

/// The records counted as pulled are at most the records sent, and all of
/// them when the client pushed nothing.
pub proof fn lemma_pulled_at_most_sent<T: Keyed>(items: Seq<T>, pushed: Seq<Seq<char>>)
    ensures
        count_unpushed(items, pushed) <= items.len(),
        pushed.len() == 0 ==> count_unpushed(items, pushed) == items.len(),
    decreases items.len(),
{
    if items.len() > 0 {
        lemma_pulled_at_most_sent(items.drop_last(), pushed);
    }
}


/// The records that changed on the server since the client's last sync,
/// split into those to send and the identifiers of the deleted ones.
#[derive(Debug)]
pub struct ChangedRecords {
    pub upserted_workspaces: Vec<Workspace>,
    pub deleted_workspace_ids: Vec<String>,
    pub upserted_notes: Vec<Note>,
    pub deleted_note_ids: Vec<String>,
    pub upserted_folders: Vec<Folder>,
    pub deleted_folder_ids: Vec<String>,
    pub upserted_tags: Vec<Tag>,
    pub deleted_tag_ids: Vec<String>,
    pub upserted_snapshots: Vec<NoteVersion>,
    pub upserted_note_tags: Vec<NoteTagRelation>,
}

/// What the client pushed (identifiers, and tag links by their key) and how
/// many records of each kind the server wrote.
#[derive(Debug)]
pub struct PushedRecords {
    pub workspace_ids: Vec<String>,
    pub note_ids: Vec<String>,
    pub folder_ids: Vec<String>,
    pub tag_ids: Vec<String>,
    pub snapshot_ids: Vec<String>,
    pub note_tags: Vec<NoteTagRelation>,
    pub written_workspaces: usize,
    pub written_notes: usize,
    pub written_folders: usize,
    pub written_tags: usize,
    pub written_snapshots: usize,
    pub written_note_tags: usize,
}

/// The number of written records fits the counters.
pub open spec fn pushed_fits(p: PushedRecords) -> bool {
    p.written_workspaces + p.written_notes + p.written_folders + p.written_tags + p.written_snapshots
        + p.written_note_tags <= usize::MAX
}

/// The number of records sent back fits the counters.
pub open spec fn changed_fits(c: ChangedRecords) -> bool {
    c.upserted_workspaces@.len() + c.upserted_notes@.len() + c.upserted_folders@.len()
        + c.upserted_tags@.len() + c.upserted_snapshots@.len() + c.upserted_note_tags@.len()
        <= usize::MAX
}

/// The answer to a sync: the changed records, the counts of what was
/// pushed, the counts of what is really new to the client (sent back and
/// not pushed by it in this sync), the conflicts and the status.
pub fn build_sync_response(
    server_time: i64,
    last_sync_at: i64,
    changed: ChangedRecords,
    pushed: &PushedRecords,
    conflicts: Vec<ConflictInfo>,
) -> (r: SyncResponse)
    requires
        pushed_fits(*pushed),
        changed_fits(changed),
    ensures
        r.status@ == (if conflicts@.len() == 0 {
            "success"@
        } else {
            "partial_success"@
        }),
        r.server_time == server_time,
        r.last_sync_at == last_sync_at,
        r.upserted_workspaces == changed.upserted_workspaces,
        r.upserted_notes == changed.upserted_notes,
        r.upserted_folders == changed.upserted_folders,
        r.upserted_tags == changed.upserted_tags,
        r.upserted_snapshots == changed.upserted_snapshots,
        r.upserted_note_tags == changed.upserted_note_tags,
        r.deleted_workspace_ids == changed.deleted_workspace_ids,
        r.deleted_note_ids == changed.deleted_note_ids,
        r.deleted_folder_ids == changed.deleted_folder_ids,
        r.deleted_tag_ids == changed.deleted_tag_ids,
        r.pushed_workspaces == pushed.written_workspaces,
        r.pushed_notes == pushed.written_notes,
        r.pushed_folders == pushed.written_folders,
        r.pushed_tags == pushed.written_tags,
        r.pushed_snapshots == pushed.written_snapshots,
        r.pushed_note_tags == pushed.written_note_tags,
        r.pushed_total == r.pushed_workspaces + r.pushed_notes + r.pushed_folders + r.pushed_tags
            + r.pushed_snapshots + r.pushed_note_tags,
        r.pulled_workspaces == count_unpushed(changed.upserted_workspaces@, texts(pushed.workspace_ids@)),
        r.pulled_notes == count_unpushed(changed.upserted_notes@, texts(pushed.note_ids@)),
        r.pulled_folders == count_unpushed(changed.upserted_folders@, texts(pushed.folder_ids@)),
        r.pulled_tags == count_unpushed(changed.upserted_tags@, texts(pushed.tag_ids@)),
        r.pulled_snapshots == count_unpushed(changed.upserted_snapshots@, texts(pushed.snapshot_ids@)),
        r.pulled_note_tags == count_unpushed_links(changed.upserted_note_tags@, pushed.note_tags@),
        r.pulled_total == r.pulled_workspaces + r.pulled_notes + r.pulled_folders + r.pulled_tags
            + r.pulled_snapshots + r.pulled_note_tags,
        r.pulled_total <= r.upserted_workspaces@.len() + r.upserted_notes@.len()
            + r.upserted_folders@.len() + r.upserted_tags@.len() + r.upserted_snapshots@.len()
            + r.upserted_note_tags@.len(),
        r.conflicts == conflicts,
{
    let pulled_workspaces = pulled_count(changed.upserted_workspaces.as_slice(), pushed.workspace_ids.as_slice());
    let pulled_notes = pulled_count(changed.upserted_notes.as_slice(), pushed.note_ids.as_slice());
    let pulled_folders = pulled_count(changed.upserted_folders.as_slice(), pushed.folder_ids.as_slice());
    let pulled_tags = pulled_count(changed.upserted_tags.as_slice(), pushed.tag_ids.as_slice());
    let pulled_snapshots = pulled_count(changed.upserted_snapshots.as_slice(), pushed.snapshot_ids.as_slice());
    let pulled_note_tags = pulled_link_count(changed.upserted_note_tags.as_slice(), pushed.note_tags.as_slice());
    proof {
        lemma_pulled_at_most_sent(changed.upserted_workspaces@, texts(pushed.workspace_ids@));
        lemma_pulled_at_most_sent(changed.upserted_notes@, texts(pushed.note_ids@));
        lemma_pulled_at_most_sent(changed.upserted_folders@, texts(pushed.folder_ids@));
        lemma_pulled_at_most_sent(changed.upserted_tags@, texts(pushed.tag_ids@));
        lemma_pulled_at_most_sent(changed.upserted_snapshots@, texts(pushed.snapshot_ids@));
        lemma_pulled_links_at_most_sent(changed.upserted_note_tags@, pushed.note_tags@);
    }
    let status = sync_status(conflicts.len());
    SyncResponse {
        status,
        server_time,
        last_sync_at,
        upserted_workspaces: changed.upserted_workspaces,
        upserted_notes: changed.upserted_notes,
        upserted_folders: changed.upserted_folders,
        upserted_tags: changed.upserted_tags,
        upserted_snapshots: changed.upserted_snapshots,
        upserted_note_tags: changed.upserted_note_tags,
        deleted_note_ids: changed.deleted_note_ids,
        deleted_folder_ids: changed.deleted_folder_ids,
        deleted_tag_ids: changed.deleted_tag_ids,
        deleted_workspace_ids: changed.deleted_workspace_ids,
        pushed_workspaces: pushed.written_workspaces,
        pushed_notes: pushed.written_notes,
        pushed_folders: pushed.written_folders,
        pushed_tags: pushed.written_tags,
        pushed_snapshots: pushed.written_snapshots,
        pushed_note_tags: pushed.written_note_tags,
        pushed_total: pushed.written_workspaces + pushed.written_notes + pushed.written_folders
            + pushed.written_tags + pushed.written_snapshots + pushed.written_note_tags,
        pulled_workspaces,
        pulled_notes,
        pulled_folders,
        pulled_tags,
        pulled_snapshots,
        pulled_note_tags,
        pulled_total: pulled_workspaces + pulled_notes + pulled_folders + pulled_tags + pulled_snapshots
            + pulled_note_tags,
        conflicts,
    }
}

/// The tag links counted as pulled are at most those sent.
pub proof fn lemma_pulled_links_at_most_sent(items: Seq<NoteTagRelation>, pushed: Seq<NoteTagRelation>)
    ensures
        count_unpushed_links(items, pushed) <= items.len(),
    decreases items.len(),
{
    if items.len() > 0 {
        lemma_pulled_links_at_most_sent(items.drop_last(), pushed);
    }
}

} // verus!
