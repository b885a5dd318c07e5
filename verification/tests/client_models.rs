use cloudmemo::client::models::error::AppError;
use cloudmemo::client::models::app_settings::AppSettings;
use cloudmemo::client::models::folder::Folder;
use cloudmemo::client::models::keybinding::get_default_keybindings;
use cloudmemo::client::models::note::Note;
use cloudmemo::client::models::sync::{
    folder_from_server, note_from_server, server_folder_from, server_note_from, NoteTagRelation,
    ServerNoteTagRelation, SyncReport,
};
use cloudmemo::client::models::user_profile::{UpdateProfileRequest, UserProfile};
use cloudmemo::client::models::workspace::Workspace;
use cloudmemo::client::repositories::folder_repository::{check_circular_reference, get_path};
use cloudmemo::client::repositories::keybinding_repository::KeybindingRepository;

fn folder(id: &str, parent: Option<&str>) -> Folder {
    let mut f = Folder::new_at(id.to_string(), 1, format!("f{}", id), parent.map(|p| p.to_string()), None, None);
    f.is_dirty = false;
    f
}

#[test]
fn word_counts_and_read_time() {
    assert_eq!(Note::count_words(""), 0);
    assert_eq!(Note::count_words("  hello   world \n"), 2);
    assert_eq!(Note::count_words("a\u{3000}b\u{a0}c"), 3);
    assert_eq!(Note::count_words("一二三"), 1);
    assert_eq!(Note::calculate_read_time(0), 1);
    assert_eq!(Note::calculate_read_time(199), 1);
    assert_eq!(Note::calculate_read_time(400), 2);
    assert_eq!(Note::calculate_read_time(999), 4);
}

#[test]
fn excerpts() {
    assert_eq!(Note::generate_excerpt("short"), None);
    let exact: String = "字".repeat(200);
    assert_eq!(Note::generate_excerpt(&exact), None);
    let long: String = "字".repeat(201);
    assert_eq!(Note::generate_excerpt(&long), Some("字".repeat(200)));
}

#[test]
fn new_note_and_content_update() {
    let mut n = Note::new("title".to_string(), "one two".to_string(), Some("f".to_string()));
    assert_eq!(n.id.len(), 36);
    assert_eq!(n.word_count, 2);
    assert_eq!(n.read_time_minutes, 1);
    assert!(n.is_dirty);
    assert_eq!(n.server_ver, 0);
    let created = n.created_at;
    let words = "w ".repeat(450);
    n.update_content(words.clone());
    assert_eq!(n.content, words);
    assert_eq!(n.word_count, 450);
    assert_eq!(n.read_time_minutes, 2);
    assert_eq!(n.excerpt, Some("w ".repeat(100)));
    assert_eq!(n.created_at, created);
    let copy = n.conflict_copy_at("c1".to_string(), 5, "冲突");
    assert_eq!(copy.title, "title (冲突)");
    assert_eq!(copy.id, "c1");
    assert_eq!(copy.server_ver, 0);
    assert_eq!(copy.created_at, 5);
}

#[test]
fn folders_and_workspaces() {
    let r = Folder::root("Inbox".to_string());
    assert!(r.parent_id.is_none());
    assert_eq!(r.name, "Inbox");
    assert_eq!(r.id.len(), 36);
    let w = Workspace::new("u".to_string(), "Work".to_string(), None, None, None);
    let id: Vec<char> = w.id.chars().collect();
    assert_eq!(id.len(), 36);
    assert_eq!((id[8], id[13], id[18], id[23], id[14]), ('-', '-', '-', '-', '4'));
    assert!("89ab".contains(id[19]));
    assert!(w.id.chars().all(|c| c == '-' || c.is_ascii_hexdigit() && !c.is_ascii_uppercase()));
    assert!(!w.is_default);
    assert!(!w.is_current);
    assert!(w.is_dirty);
    let d = Workspace::new_with_default("u".to_string(), "Home".to_string(), None, None, None, true);
    assert!(d.is_default);
}

#[test]
fn default_keybindings() {
    let k = get_default_keybindings();
    assert_eq!(k.keybindings.len(), 11);
    assert_eq!(k.keybindings[0].0, "global.newNote");
    assert_eq!(k.keybindings[0].1.key, "KeyN");
    assert_eq!(k.keybindings[10].0, "note.zoomReset");
    assert_eq!(k.keybindings[10].1.key, "Digit0");
    assert!(k.keybindings.iter().all(|(_, c)| c.ctrl && !c.alt && !c.shift && !c.meta));
    assert_eq!(k.presets.len(), 1);
    assert_eq!(k.presets[0].id, "vscode");
    assert_eq!(k.presets[0].keybindings.len(), 11);
    let mut commands: Vec<&String> = k.keybindings.iter().map(|(c, _)| c).collect();
    commands.sort();
    commands.dedup();
    assert_eq!(commands.len(), 11);
    let repo = KeybindingRepository::new(std::path::PathBuf::from("/tmp/keys.json"));
    assert_eq!(repo.storage_path(), &std::path::PathBuf::from("/tmp/keys.json"));
}

#[test]
fn report_totals() {
    let r = SyncReport { pushed_notes: 1, pushed_folders: 2, pushed_tags: 3, pushed_snapshots: 4, pushed_note_tags: 5, pulled_notes: 10, pulled_note_tags: 1, ..Default::default() };
    assert_eq!(r.total_pushed(), 15);
    assert_eq!(r.total_pulled(), 11);
}

#[test]
fn server_conversions() {
    let mut n = Note::new_at("n1".to_string(), 3, "t".to_string(), "a b c".to_string(), None);
    n.server_ver = 4;
    let s = server_note_from(n);
    assert_eq!(s.user_id, "");
    assert_eq!(s.word_count, 3);
    assert_eq!(s.server_ver, 4);
    let back = note_from_server(s, 99);
    assert!(!back.is_dirty);
    assert_eq!(back.last_synced_at, Some(99));
    assert_eq!(back.word_count, 3);
    let sf = server_folder_from(folder("f", Some("p")));
    assert_eq!(sf.parent_id.as_deref(), Some("p"));
    let f = folder_from_server(sf, 7);
    assert_eq!(f.sort_order, 0);
    assert_eq!(f.last_synced_at, Some(7));
    let rel: NoteTagRelation = ServerNoteTagRelation { note_id: "n".to_string(), tag_id: "t".to_string(), user_id: "u".to_string(), created_at: 1 }.into();
    assert!(!rel.is_deleted);
    let back: ServerNoteTagRelation = rel.into();
    assert_eq!(back.tag_id, "t");
}

#[test]
fn folder_paths_and_cycles() {
    let fs = vec![folder("a", None), folder("b", Some("a")), folder("c", Some("b")), folder("x", Some("y")), folder("y", Some("x"))];
    let path: Vec<String> = get_path(&fs, "c").into_iter().map(|f| f.id).collect();
    assert_eq!(path, vec!["a".to_string(), "b".to_string(), "c".to_string()]);
    assert!(get_path(&fs, "nope").is_empty());
    assert!(check_circular_reference(&fs, "a", "c"));
    assert!(!check_circular_reference(&fs, "c", "a"));
    assert!(check_circular_reference(&fs, "a", "a"));
    assert!(check_circular_reference(&fs, "q", "x"));
    assert!(!check_circular_reference(&fs, "q", "missing"));
}

#[test]
fn profiles_and_settings() {
    let mut p = UserProfile::new_at("u".to_string(), 10);
    p.update_at(UpdateProfileRequest { username: Some("n".to_string()), phone: None, qq: None, wechat: None, avatar_data: None, avatar_mime_type: None, bio: Some("b".to_string()) }, 20);
    assert_eq!(p.username.as_deref(), Some("n"));
    assert_eq!(p.bio.as_deref(), Some("b"));
    assert_eq!(p.created_at, 10);
    assert_eq!(p.updated_at, 20);
    p.update_at(UpdateProfileRequest { username: None, phone: None, qq: None, wechat: None, avatar_data: None, avatar_mime_type: None, bio: None }, 30);
    assert_eq!(p.username.as_deref(), Some("n"));
    assert_eq!(p.updated_at, 30);
    let s = AppSettings::default();
    assert_eq!(s.id, 1);
    assert_eq!(s.default_server_url, "https://api.noteapp.com");
    assert_eq!(s.sync_interval_minutes, 5);
    assert_eq!(s.theme, "system");
    assert_eq!(s.language, "zh-CN");
}

#[test]
fn app_error_messages() {
    assert_eq!(AppError::NoteNotFound("n1".to_string()).message(), "笔记不存在: n1");
    assert_eq!(AppError::Pool("timed out".to_string()).message(), "连接池错误: timed out");
    assert_eq!(AppError::Database("locked".to_string()).message(), "数据库错误: locked");
    assert_eq!(AppError::SyncCancelled("x".to_string()).message(), "同步已取消: x");
}
