use ghostgit::git::{short_hash, INDEX_MODIFIED, INDEX_NEW, INDEX_RENAMED, WT_DELETED, WT_MODIFIED, WT_NEW, WT_RENAMED};
use ghostgit::status::{changed_files, label_of, StatusEntry};
use ghostgit::workdir::{branch_names, current_branch, origin_update, OriginUpdate};
use ghostgit::{AppState, Session};

fn session(name: &str) -> Session {
    Session {
        repo_path: "/tmp/repo".into(),
        username: name.into(),
        pat: "secret".into(),
        author_name: "Test Author".into(),
        author_email: "test@example.com".into(),
    }
}

#[test]
fn session_read_gives_back_write() {
    let mut state = AppState::new();
    assert!(state.get_session().is_none());
    let returned = state.save_session(session("alice"));
    assert_eq!(returned.username, "alice");
    assert_eq!(state.get_session().unwrap().username, "alice");
    state.save_session(session("bob"));
    assert_eq!(state.get_session().unwrap().username, "bob");
    state.clear_session();
    assert!(state.get_session().is_none());
    let d = AppState::default();
    assert!(d.get_session().is_none());
}

#[test]
fn status_labels_follow_priority() {
    assert_eq!(label_of(WT_NEW), "new");
    assert_eq!(label_of(INDEX_NEW | WT_MODIFIED), "new");
    assert_eq!(label_of(INDEX_MODIFIED), "modified");
    assert_eq!(label_of(WT_DELETED | WT_RENAMED), "deleted");
    assert_eq!(label_of(INDEX_RENAMED), "renamed");
    assert_eq!(label_of(0), "changed");
    assert_eq!(label_of(1 << 15), "changed");
    let git = git2::Status::WT_NEW | git2::Status::INDEX_MODIFIED;
    assert_eq!(label_of(git.bits()), "new");
}

#[test]
fn changed_files_keep_order_and_skip_unnamed() {
    let entries = vec![
        StatusEntry { path: Some("hello.txt".into()), bits: WT_NEW },
        StatusEntry { path: None, bits: WT_MODIFIED },
        StatusEntry { path: Some("src/lib.rs".into()), bits: WT_MODIFIED },
    ];
    let files = changed_files(&entries);
    assert_eq!(files.len(), 2);
    assert_eq!(files[0].path, "hello.txt");
    assert_eq!(files[0].status, "new");
    assert_eq!(files[1].path, "src/lib.rs");
    assert_eq!(files[1].status, "modified");
    assert!(changed_files(&vec![]).is_empty());
}

#[test]
fn short_hash_is_seven_lowercase_hex_digits() {
    let mut id = [0u8; 20];
    for (i, b) in id.iter_mut().enumerate() {
        *b = (i as u8) * 17 + 0xa0;
    }
    let h = short_hash(&id);
    assert_eq!(h.len(), 7);
    let full = git2::Oid::from_bytes(&id).unwrap().to_string();
    assert_eq!(h, full[..7]);
    assert_eq!(h, "a0b1c2d");
}

#[test]
fn branch_helpers() {
    assert_eq!(current_branch(Some("main".into())), "main");
    assert_eq!(current_branch(None), "HEAD");
    let names = branch_names(vec![Some("main".into()), None, Some("dev".into())]);
    assert_eq!(names, vec!["main".to_string(), "dev".to_string()]);
    assert_eq!(origin_update(true), OriginUpdate::SetUrl);
    assert_eq!(origin_update(false), OriginUpdate::Create);
}

#[test]
fn status_and_diff_queries() {
    let q = ghostgit::status::status_query();
    assert!(q.include_untracked && q.recurse_untracked_dirs && !q.include_ignored);
    let d = ghostgit::diff::diff_query("src/main.rs");
    assert_eq!(d.pathspec, "src/main.rs");
    assert!(d.include_untracked && d.recurse_untracked_dirs && d.show_untracked_content);
}
