use ghostgit::diff::{diff_query, diff_report_text, DiffLine};

/// A fresh repository under /tmp.
fn fresh_repo(tag: &str) -> git2::Repository {
    let nanos = std::time::SystemTime::now().duration_since(std::time::UNIX_EPOCH).unwrap().as_nanos();
    git2::Repository::init(format!("/tmp/ghostgit-diff-{tag}-{nanos}")).unwrap()
}

/// Writes `content` to the working-tree file `name` (through a checkout of
/// a staged blob) and unstages it again, so that the file is untracked.
fn put_untracked(repo: &git2::Repository, name: &str, content: &[u8]) {
    let mut index = repo.index().unwrap();
    let time = git2::IndexTime::new(0, 0);
    let entry = git2::IndexEntry {
        ctime: time,
        mtime: time,
        dev: 0,
        ino: 0,
        mode: 0o100644,
        uid: 0,
        gid: 0,
        file_size: content.len() as u32,
        id: git2::Oid::zero(),
        flags: 0,
        flags_extended: 0,
        path: name.as_bytes().to_vec(),
    };
    index.add_frombuffer(&entry, content).unwrap();
    let mut checkout = git2::build::CheckoutBuilder::new();
    checkout.force();
    repo.checkout_index(Some(&mut index), Some(&mut checkout)).unwrap();
    index.remove_path(std::path::Path::new(name)).unwrap();
    index.write().unwrap();
}

/// Asks git2 for the diff of `path` the way the library's query says, and
/// renders it.
fn file_diff(repo: &git2::Repository, path: &str) -> String {
    let q = diff_query(path);
    let mut opts = git2::DiffOptions::new();
    opts.pathspec(&q.pathspec)
        .include_untracked(q.include_untracked)
        .recurse_untracked_dirs(q.recurse_untracked_dirs)
        .show_untracked_content(q.show_untracked_content);
    let head_tree = repo.head().ok().and_then(|h| h.peel_to_tree().ok());
    let diff = repo.diff_tree_to_workdir_with_index(head_tree.as_ref(), Some(&mut opts)).unwrap();
    let mut lines = Vec::new();
    diff.print(git2::DiffFormat::Patch, |_delta, _hunk, line| {
        lines.push(DiffLine { origin: line.origin(), content: line.content().to_vec() });
        true
    })
    .unwrap();
    diff_report_text(&lines)
}

#[test]
fn untracked_file_is_diffed_against_nothing() {
    let repo = fresh_repo("untracked");
    put_untracked(&repo, "a.txt", b"a\n");
    put_untracked(&repo, "b.txt", b"b\n");
    let statuses = repo.statuses(None).unwrap();
    assert!(statuses.iter().all(|e| e.status().is_wt_new()));
    let s = file_diff(&repo, "a.txt");
    assert!(s.contains("+a\n"), "unexpected diff: {s}");
    assert!(!s.contains("b.txt"), "unexpected diff: {s}");
}

#[test]
fn absent_file_gets_the_note() {
    let repo = fresh_repo("absent");
    let s = file_diff(&repo, "missing.txt");
    assert_eq!(s, "(no textual diff available — binary or empty file)");
}
