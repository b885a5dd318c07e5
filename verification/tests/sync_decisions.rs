use cloudmemo::server::handlers::sync::{build_sync_response, ChangedRecords, PushedRecords};
use cloudmemo::server::handlers::sync::{
    check_workspace_owned, conflict_copy_title, conflict_info, decide_note_push, decide_push,
    device_description, has_version_conflict, history_counts, keys_of, live_note_tags,
    plan_folder_upserts, pulled_count, pulled_link_count, pushed_server_ver, snapshot_conflict_title,
    conflict_copy_note, kept_count_of_note, kept_snapshots, PushTally, snapshot_counts_by_note, snapshots_to_prune, split_deleted, sync_in_progress_error, sync_status,
    total_count, FolderStep, PushAction,
};
use cloudmemo::server::models::{
    ConflictResolutionStrategy, Folder, Note, NoteTagRelation, NoteVersion, Workspace,
};

fn folder(id: &str, parent: Option<&str>, ver: i32) -> Folder {
    Folder {
        id: id.to_string(),
        user_id: "u".to_string(),
        workspace_id: None,
        name: format!("folder {}", id),
        parent_id: parent.map(|p| p.to_string()),
        created_at: 1,
        updated_at: 1,
        is_deleted: false,
        deleted_at: None,
        server_ver: ver,
        device_id: None,
        updated_by_device: None,
    }
}

fn workspace(id: &str, deleted: bool) -> Workspace {
    Workspace {
        id: id.to_string(),
        user_id: "u".to_string(),
        name: id.to_string(),
        description: None,
        icon: None,
        color: None,
        is_default: false,
        sort_order: 0,
        is_deleted: deleted,
        deleted_at: None,
        created_at: 0,
        updated_at: 0,
        server_ver: 1,
        device_id: None,
        updated_by_device: None,
    }
}

fn note(id: &str, deleted: bool) -> Note {
    Note {
        id: id.to_string(),
        user_id: "u".to_string(),
        workspace_id: None,
        title: "t".to_string(),
        content: "c".to_string(),
        folder_id: None,
        is_deleted: deleted,
        deleted_at: None,
        created_at: 0,
        updated_at: 0,
        server_ver: 1,
        device_id: None,
        updated_by_device: None,
        excerpt: None,
        markdown_cache: None,
        is_favorite: false,
        is_pinned: false,
        author: None,
        word_count: 0,
        read_time_minutes: 1,
    }
}

fn snapshot(id: &str, note_id: &str, name: Option<&str>) -> NoteVersion {
    NoteVersion {
        id: id.to_string(),
        note_id: note_id.to_string(),
        user_id: "u".to_string(),
        workspace_id: None,
        title: "snap title".to_string(),
        content: "x".to_string(),
        snapshot_name: name.map(|n| n.to_string()),
        created_at: 0,
        server_ver: 0,
        device_id: None,
    }
}

fn link(note_id: &str, tag_id: &str, deleted: bool) -> NoteTagRelation {
    NoteTagRelation {
        note_id: note_id.to_string(),
        tag_id: tag_id.to_string(),
        user_id: "u".to_string(),
        workspace_id: None,
        created_at: 0,
        is_deleted: deleted,
        deleted_at: None,
    }
}

#[test]
fn version_conflicts() {
    assert!(has_version_conflict(Some(5), 4));
    assert!(!has_version_conflict(Some(4), 4));
    assert!(!has_version_conflict(None, 0));
    assert_eq!(decide_push(Some(3), 1), PushAction::Conflict);
    assert_eq!(decide_push(Some(1), 1), PushAction::Upsert);
    assert_eq!(decide_push(None, 7), PushAction::Upsert);
}

#[test]
fn note_conflict_strategies() {
    assert_eq!(decide_note_push(ConflictResolutionStrategy::KeepServer, Some(2), 1), PushAction::Conflict);
    assert_eq!(decide_note_push(ConflictResolutionStrategy::KeepLocal, Some(2), 1), PushAction::Upsert);
    assert_eq!(decide_note_push(ConflictResolutionStrategy::KeepBoth, Some(2), 1), PushAction::ConflictCopy);
    assert_eq!(decide_note_push(ConflictResolutionStrategy::ManualMerge, Some(2), 1), PushAction::Conflict);
    assert_eq!(decide_note_push(ConflictResolutionStrategy::KeepServer, Some(1), 1), PushAction::Upsert);
    assert_eq!(decide_note_push(ConflictResolutionStrategy::default(), Some(9), 0), PushAction::ConflictCopy);
}

#[test]
fn versions_and_titles() {
    assert_eq!(pushed_server_ver(0), 1);
    assert_eq!(pushed_server_ver(41), 42);
    assert_eq!(conflict_copy_title("日记"), "日记 (冲突副本-本地)");
    assert_eq!(device_description(Some("desktop-windows-1"), Some("curl/8")), "desktop-windows-1 (curl/8)");
    assert_eq!(device_description(None, None), "unknown (Unknown Device)");
    let c = conflict_info("n1", "note", 1, 3, "title");
    assert_eq!(c.id, "n1");
    assert_eq!(c.entity_type, "note");
    assert_eq!(c.local_version, 1);
    assert_eq!(c.server_version, 3);
    assert_eq!(c.title, "title");
    assert_eq!(snapshot_conflict_title(&snapshot("s", "n", Some("v1"))), "v1");
    assert_eq!(snapshot_conflict_title(&snapshot("s", "n", None)), "snap title");
}

#[test]
fn folder_plan_parents_first() {
    // child listed before its parent; grandchild last
    let fs = vec![folder("c", Some("p"), 0), folder("p", None, 0), folder("g", Some("c"), 0)];
    let plan = plan_folder_upserts(&fs, &[None, None, None], &[false, false, false]);
    let order: Vec<usize> = plan.iter().map(|s| s.index).collect();
    assert_eq!(order, vec![1, 0, 2]);
    assert!(plan.iter().all(|s| !s.conflict));
}

#[test]
fn folder_plan_skips_orphans_cycles_and_duplicates() {
    let fs = vec![
        folder("a", Some("missing"), 0),
        folder("x", Some("y"), 0),
        folder("y", Some("x"), 0),
        folder("r", Some(""), 0),
        folder("r", None, 0),
        folder("k", Some("known"), 0),
    ];
    let plan = plan_folder_upserts(&fs, &[None; 6], &[false, false, false, false, false, true]);
    assert_eq!(plan, vec![FolderStep { index: 3, conflict: false }, FolderStep { index: 5, conflict: false }]);
}

#[test]
fn folder_plan_conflicts_do_not_unlock_children() {
    // the parent conflicts (server copy newer) and is not on the server as
    // far as the child's check goes: the child waits
    let fs = vec![folder("p", None, 1), folder("c", Some("p"), 0)];
    let plan = plan_folder_upserts(&fs, &[Some(5), None], &[false, false]);
    assert_eq!(plan, vec![FolderStep { index: 0, conflict: true }]);
    // once the server knows the parent, the child is written
    let plan = plan_folder_upserts(&fs, &[Some(5), None], &[false, true]);
    assert_eq!(plan, vec![FolderStep { index: 0, conflict: true }, FolderStep { index: 1, conflict: false }]);
}

#[test]
fn snapshot_grouping_and_pruning() {
    let ss = vec![snapshot("1", "a", None), snapshot("2", "b", None), snapshot("3", "a", None)];
    let g = snapshot_counts_by_note(&ss);
    assert_eq!(g, vec![("a".to_string(), 2), ("b".to_string(), 1)]);
    assert_eq!(snapshots_to_prune(18, 2), 0);
    assert_eq!(snapshots_to_prune(19, 2), 1);
    assert_eq!(snapshots_to_prune(0, 20), 0);
    assert_eq!(snapshots_to_prune(30, 0), 10);
    assert_eq!(snapshots_to_prune(30, 20), 30);
}

#[test]
fn at_most_twenty_snapshots_of_a_note_are_kept() {
    let mut ss = Vec::new();
    for i in 0..25 {
        ss.push(snapshot(&format!("a{}", i), "a", None));
    }
    ss.push(snapshot("b0", "b", None));
    let kept = kept_snapshots(&ss);
    // the first five of note a are dropped, its last twenty and note b kept
    assert!(kept[..5].iter().all(|k| !k));
    assert!(kept[5..].iter().all(|k| *k));
    assert_eq!(kept_count_of_note(&ss, "a"), 20);
    assert_eq!(kept_count_of_note(&ss, "b"), 1);
    assert_eq!(kept_count_of_note(&ss, "c"), 0);
    // nothing stored: nothing to delete, twenty remain
    assert_eq!(snapshots_to_prune(0, kept_count_of_note(&ss, "a")), 0);
}

#[test]
fn split_changed_records() {
    let all = vec![workspace("w1", false), workspace("w2", true), workspace("w3", false)];
    let (live, deleted) = split_deleted(all);
    let live_ids: Vec<String> = live.iter().map(|w| w.id.clone()).collect();
    assert_eq!(live_ids, vec!["w1".to_string(), "w3".to_string()]);
    assert_eq!(deleted, vec!["w2".to_string()]);
    let (n_live, n_deleted) = split_deleted(vec![note("n1", true), note("n2", true)]);
    assert!(n_live.is_empty());
    assert_eq!(n_deleted, vec!["n1".to_string(), "n2".to_string()]);
}

#[test]
fn pulled_counts_exclude_pushed() {
    let sent = vec![note("a", false), note("b", false), note("c", false)];
    let pushed = keys_of(&[note("b", false), note("z", false)]);
    assert_eq!(pushed, vec!["b".to_string(), "z".to_string()]);
    assert_eq!(pulled_count(&sent, &pushed), 2);
    assert_eq!(pulled_count(&sent, &[]), 3);
    let links = live_note_tags(vec![link("n", "t1", false), link("n", "t2", true), link("m", "t1", false)]);
    assert_eq!(links.len(), 2);
    assert_eq!(pulled_link_count(&links, &[link("n", "t1", false)]), 1);
}

#[test]
fn response_counts() {
    assert_eq!(total_count(&[1, 2, 3, 0, 4, 5]), 15);
    assert_eq!(sync_status(0), "success");
    assert_eq!(sync_status(2), "partial_success");
    let h = history_counts(2, 3, 4, 5, 1, 1, 7);
    assert_eq!(h.pushed, 5);
    assert_eq!(h.pulled, 11);
    assert_eq!(h.deleted, 2);
    assert_eq!(h.conflicts, 7);
    let wrapped = history_counts(usize::MAX / 2, usize::MAX / 2, 0, 0, 0, 0, 0);
    assert_eq!(wrapped.pushed, (usize::MAX - 1) as i32);
}

#[test]
fn workspace_ownership_answers() {
    assert!(check_workspace_owned(Ok(1), "w").is_ok());
    let e = check_workspace_owned(Ok(0), "w9").unwrap_err();
    assert_eq!(e.status, Some(403));
    assert_eq!(e.error_code.as_deref(), Some("WORKSPACE_NOT_OWNED"));
    assert_eq!(e.error, "工作空间 w9 不属于当前用户");
    let e = check_workspace_owned(Err("db down".to_string()), "w").unwrap_err();
    assert_eq!(e.status, Some(500));
    assert_eq!(e.error_code.as_deref(), Some("WORKSPACE_VERIFICATION_ERROR"));
    let e = sync_in_progress_error();
    assert_eq!(e.status, Some(409));
    assert_eq!(e.http_status(), 409);
}

#[test]
fn folder_plan_visits_same_folders_in_any_order() {
    let a = vec![folder("g", Some("c"), 0), folder("c", Some("p"), 0), folder("p", None, 0), folder("o", Some("zz"), 0)];
    let b = vec![folder("p", None, 0), folder("o", Some("zz"), 0), folder("c", Some("p"), 0), folder("g", Some("c"), 0)];
    let ids = |fs: &Vec<Folder>, plan: Vec<FolderStep>| {
        let mut v: Vec<String> = plan.iter().map(|s| fs[s.index].id.clone()).collect();
        v.sort();
        v
    };
    let pa = plan_folder_upserts(&a, &[None; 4], &[false; 4]);
    let pb = plan_folder_upserts(&b, &[None; 4], &[false; 4]);
    assert_eq!(ids(&a, pa), ids(&b, pb));
}

#[test]
fn sync_response_counts() {
    let changed = ChangedRecords {
        upserted_workspaces: vec![workspace("w1", false)],
        deleted_workspace_ids: vec![],
        upserted_notes: vec![note("a", false), note("b", false)],
        deleted_note_ids: vec!["d".to_string()],
        upserted_folders: vec![],
        deleted_folder_ids: vec![],
        upserted_tags: vec![],
        deleted_tag_ids: vec![],
        upserted_snapshots: vec![snapshot("s1", "a", None)],
        upserted_note_tags: vec![link("a", "t", false)],
    };
    let pushed = PushedRecords {
        workspace_ids: vec![],
        note_ids: vec!["a".to_string()],
        folder_ids: vec![],
        tag_ids: vec![],
        snapshot_ids: vec!["s1".to_string()],
        note_tags: vec![],
        written_workspaces: 0,
        written_notes: 1,
        written_folders: 0,
        written_tags: 0,
        written_snapshots: 1,
        written_note_tags: 0,
    };
    let r = build_sync_response(10, 11, changed, &pushed, vec![]);
    assert_eq!(r.status, "success");
    assert_eq!(r.server_time, 10);
    assert_eq!(r.last_sync_at, 11);
    assert_eq!(r.pushed_total, 2);
    assert_eq!(r.pulled_workspaces, 1);
    assert_eq!(r.pulled_notes, 1);
    assert_eq!(r.pulled_snapshots, 0);
    assert_eq!(r.pulled_note_tags, 1);
    assert_eq!(r.pulled_total, 3);
    assert_eq!(r.deleted_note_ids, vec!["d".to_string()]);
}

#[test]
fn tally_counts_every_pushed_record() {
    let mut t = PushTally::new();
    for a in [PushAction::Upsert, PushAction::Conflict, PushAction::ConflictCopy, PushAction::Upsert] {
        t.record(a);
    }
    assert_eq!((t.seen, t.written, t.conflicts), (4, 2, 2));
}

#[test]
fn kept_both_copy_of_a_note() {
    let mut n = note("n1", false);
    n.title = "Plan".to_string();
    let copy = conflict_copy_note(&n, "c9".to_string(), "u2", &Some("w".to_string()), 7, &Some("d".to_string()), "d (ua)");
    assert_eq!(copy.id, "c9");
    assert_eq!(copy.user_id, "u2");
    assert_eq!(copy.workspace_id.as_deref(), Some("w"));
    assert_eq!(copy.title, "Plan (冲突副本-本地)");
    assert_eq!(copy.content, n.content);
    assert_eq!(copy.server_ver, 7);
    assert_eq!(copy.updated_by_device.as_deref(), Some("d (ua)"));
    assert_eq!(copy.read_time_minutes, n.read_time_minutes);
}
