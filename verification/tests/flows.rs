use ghostgit::commit::{CommitAction, CommitFlow, CommitReply};
use ghostgit::errors::{ErrClass, ErrCode, GitError};
use ghostgit::pull::{PullAction, PullFlow, PullReply};
use ghostgit::remote::{CredentialAnswer, CredentialGate};
use ghostgit::sync::{check_clone, clone_result, SyncAction, SyncFlow, SyncKind, SyncReply};
use ghostgit::workdir::{DiscardAction, DiscardFlow, DiscardReply, SwitchAction, SwitchFlow, SwitchReply};
use ghostgit::history::{CommitInfo, HistoryAction, HistoryFlow, HistoryReply, HISTORY_LIMIT};
use ghostgit::diff::{diff_report_text, render_patch, DiffLine};
use ghostgit::api::{repos_request, repos_status, token_check_request};

fn class_of(c: git2::ErrorClass) -> ErrClass {
    match c {
        git2::ErrorClass::None => ErrClass::Unclassified,
        git2::ErrorClass::Os => ErrClass::Os,
        git2::ErrorClass::Net => ErrClass::Net,
        git2::ErrorClass::Http => ErrClass::Http,
        other => panic!("class {other:?} is not used here"),
    }
}

/// A git2 error of this class, with the generic code, as the library
/// holds it.
fn classed(class: git2::ErrorClass, message: &str) -> GitError {
    let e = git2::Error::new(git2::ErrorCode::GenericError, class, message);
    GitError {
        class: class_of(e.class()),
        code: ErrCode::GenericError,
        class_name: format!("{:?}", e.class()),
        message: e.message().to_string(),
        text: e.to_string(),
    }
}

fn lock_error() -> GitError {
    classed(git2::ErrorClass::Os, "sharing violation")
}

/// An error with no class, whose text is its message.
fn plain_error(message: &str) -> GitError {
    let e = git2::Error::from_str(message);
    GitError {
        class: class_of(e.class()),
        code: ErrCode::GenericError,
        class_name: format!("{:?}", e.class()),
        message: e.message().to_string(),
        text: e.to_string(),
    }
}

fn start_commit(message: &str, paths: Vec<String>) -> (CommitFlow, CommitAction) {
    CommitFlow::start("Test Author".to_string(), "test@example.com".to_string(), message.to_string(), paths)
}

fn finish_commit(a: CommitAction) -> Result<ghostgit::CommitEntry, String> {
    match a {
        CommitAction::Finish(r) => r,
        _ => panic!("expected the commit to finish"),
    }
}

#[test]
fn commit_with_empty_message_is_rejected() {
    let (_, a) = start_commit("   ", vec!["a.txt".to_string()]);
    let result = finish_commit(a);
    assert!(result.is_err());
    assert_eq!(result.err().unwrap(), "Commit message cannot be empty");
}

#[test]
fn commit_with_no_staged_paths_is_rejected() {
    let (mut f, a) = start_commit("A message", vec![]);
    assert!(matches!(a, CommitAction::OpenIndex));
    let result = finish_commit(f.step(CommitReply::Opened(Ok(()))));
    assert!(result.is_err());
    assert_eq!(result.err().unwrap(), "No files staged for commit");
}

#[test]
fn commit_refuses_to_stage_gitignored_path() {
    let (mut f, _) = start_commit("Try to commit ignored file", vec!["ignored.txt".to_string()]);
    let a = f.step(CommitReply::Opened(Ok(())));
    assert!(matches!(a, CommitAction::CheckIgnored(ref p) if p == "ignored.txt"));
    let result = finish_commit(f.step(CommitReply::IgnoreChecked(Ok(true))));
    assert!(result.is_err(), "committing an ignored path should fail");
    let e = result.err().unwrap();
    assert!(e.contains("gitignore"));
    assert_eq!(e, "'ignored.txt' is excluded by .gitignore and cannot be committed");
}

#[test]
fn commit_flow_creates_entry() {
    let paths = vec!["a.txt".to_string(), "b.txt".to_string()];
    let (mut f, _) = start_commit("Initial commit", paths);
    assert!(matches!(f.step(CommitReply::Opened(Ok(()))), CommitAction::CheckIgnored(ref p) if p == "a.txt"));
    // A failed ignore check lets the path through.
    assert!(matches!(f.step(CommitReply::IgnoreChecked(Err(plain_error("odd")))), CommitAction::CheckIgnored(ref p) if p == "b.txt"));
    assert!(matches!(f.step(CommitReply::IgnoreChecked(Ok(false))), CommitAction::Stage(ref p) if p == "a.txt"));
    // A reply that does not answer the pending action changes nothing.
    assert!(matches!(f.step(CommitReply::Written(Ok(()))), CommitAction::Stage(ref p) if p == "a.txt"));
    assert!(matches!(f.step(CommitReply::Staged(Ok(()))), CommitAction::Stage(ref p) if p == "b.txt"));
    assert!(matches!(f.step(CommitReply::Staged(Ok(()))), CommitAction::WriteIndex));
    assert!(matches!(f.step(CommitReply::Written(Ok(()))), CommitAction::ReadParent));
    let mut parent = [0u8; 20];
    parent[19] = 7;
    match f.step(CommitReply::HeadRead(Ok(Some(parent)))) {
        CommitAction::Commit { message, author_name, author_email, parent: p } => {
            assert_eq!(message, "Initial commit");
            assert_eq!(author_name, "Test Author");
            assert_eq!(author_email, "test@example.com");
            assert_eq!(p, Some(parent));
        }
        _ => panic!("expected the commit to be made"),
    }
    let mut id = [0u8; 20];
    id[0] = 0x12;
    id[1] = 0x34;
    id[2] = 0x5f;
    id[3] = 0xff;
    let entry = finish_commit(f.step(CommitReply::Committed(Ok(id)))).expect("commit should succeed");
    assert_eq!(entry.message, "Initial commit");
    assert_eq!(entry.hash.len(), 7);
    assert_eq!(entry.hash, "12345ff");
    assert_eq!(entry.time_ago, "just now");
}

#[test]
fn commit_without_a_readable_head_has_no_parent() {
    let (mut f, _) = start_commit("First", vec!["a.txt".to_string()]);
    f.step(CommitReply::Opened(Ok(())));
    f.step(CommitReply::IgnoreChecked(Ok(false)));
    f.step(CommitReply::Staged(Ok(())));
    assert!(matches!(f.step(CommitReply::Written(Ok(()))), CommitAction::ReadParent));
    let a = f.step(CommitReply::HeadRead(Err(plain_error("reference 'refs/heads/master' not found"))));
    assert!(matches!(a, CommitAction::Commit { parent: None, .. }));
}

#[test]
fn commit_stage_and_write_failures_are_described() {
    let paths = vec!["locked.txt".to_string(), "b".to_string()];
    let (mut f, _) = start_commit("m", paths.clone());
    f.step(CommitReply::Opened(Ok(())));
    f.step(CommitReply::IgnoreChecked(Ok(false)));
    f.step(CommitReply::IgnoreChecked(Ok(false)));
    let r = finish_commit(f.step(CommitReply::Staged(Err(lock_error()))));
    assert_eq!(
        r.err().unwrap(),
        "Failed to stage locked.txt: 'locked.txt' is locked by another program — close it and try again"
    );

    let (mut f, _) = start_commit("m", paths);
    f.step(CommitReply::Opened(Ok(())));
    f.step(CommitReply::IgnoreChecked(Ok(false)));
    f.step(CommitReply::IgnoreChecked(Ok(false)));
    f.step(CommitReply::Staged(Ok(())));
    f.step(CommitReply::Staged(Ok(())));
    let r = finish_commit(f.step(CommitReply::Written(Err(lock_error()))));
    assert_eq!(r.err().unwrap(), "'locked.txt, b' is locked by another program — close it and try again");
}

#[test]
fn commit_open_failure_reports_git_text() {
    let (mut f, _) = start_commit("m", vec![]);
    let r = finish_commit(f.step(CommitReply::Opened(Err(plain_error("could not find repository")))));
    assert_eq!(r.err().unwrap(), "could not find repository");
}

fn finish_pull(a: PullAction) -> Result<String, String> {
    match a {
        PullAction::Finish(r) => r,
        _ => panic!("expected the pull to finish"),
    }
}

/// The id of the commit the remote-tracking branch points at.
fn fetched_id() -> [u8; 20] {
    let mut id = [0u8; 20];
    id[0] = 0xab;
    id[19] = 0xcd;
    id
}

fn pull_to_analysis(branch: &str) -> PullFlow {
    let (mut f, a) = PullFlow::start("dummy-pat");
    assert!(matches!(a, PullAction::OpenRepository));
    assert!(matches!(f.step(PullReply::Opened(Ok(()))), PullAction::FindOrigin));
    assert!(matches!(f.step(PullReply::OriginFound(Ok(()))), PullAction::ReadHead));
    assert!(matches!(f.step(PullReply::Head(Ok(Some(branch.to_string())))), PullAction::Fetch(ref b) if b == branch));
    let a = f.step(PullReply::Fetched(Ok(())));
    assert!(matches!(a, PullAction::FindReference(ref r) if *r == format!("refs/remotes/origin/{branch}")));
    assert!(matches!(f.step(PullReply::ReferenceFound(Ok(()))), PullAction::Analyze));
    f
}

#[test]
fn pull_fast_forwards_when_origin_has_new_commits() {
    let mut f = pull_to_analysis("master");
    let ff = git2::MergeAnalysis::ANALYSIS_FASTFORWARD | git2::MergeAnalysis::ANALYSIS_NORMAL;
    match f.step(PullReply::Analyzed(Ok((ff.bits(), fetched_id())))) {
        PullAction::FastForward { reference, target, reflog } => {
            assert_eq!(reference, "refs/heads/master");
            assert_eq!(target, fetched_id());
            assert_eq!(reflog, "ghostgit: fast-forward pull");
        }
        _ => panic!("expected a fast-forward"),
    }
    assert!(matches!(f.step(PullReply::FastForwarded(Ok(()))), PullAction::Checkout));
    let msg = finish_pull(f.step(PullReply::CheckedOut(Ok(())))).unwrap();
    assert!(msg.contains("fast-forwarded"), "unexpected message: {msg}");
    assert_eq!(msg, "Pulled — fast-forwarded master to origin");
}

#[test]
fn pull_reports_already_up_to_date() {
    let mut f = pull_to_analysis("main");
    let msg = finish_pull(f.step(PullReply::Analyzed(Ok((git2::MergeAnalysis::ANALYSIS_UP_TO_DATE.bits(), fetched_id()))))).unwrap();
    assert!(msg.contains("Already up to date"), "unexpected message: {msg}");
    assert_eq!(msg, "Already up to date with origin/main");
}

#[test]
fn pull_rejects_diverged_history() {
    let mut f = pull_to_analysis("main");
    let result = finish_pull(f.step(PullReply::Analyzed(Ok((git2::MergeAnalysis::ANALYSIS_NORMAL.bits(), fetched_id())))));
    assert!(result.is_err());
    assert!(result.unwrap_err().contains("diverged"));
}

#[test]
fn pull_requires_non_empty_pat() {
    let (_, a) = PullFlow::start("");
    let result = finish_pull(a);
    assert!(result.is_err());
    assert!(result.unwrap_err().contains("PAT"));
}

#[test]
fn pull_failures_are_reported() {
    let (mut f, _) = PullFlow::start("pat");
    f.step(PullReply::Opened(Ok(())));
    assert_eq!(finish_pull(f.step(PullReply::OriginFound(Err(plain_error("x"))))).unwrap_err(), "No remote 'origin' configured");

    let (mut f, _) = PullFlow::start("pat");
    f.step(PullReply::Opened(Ok(())));
    f.step(PullReply::OriginFound(Ok(())));
    assert_eq!(finish_pull(f.step(PullReply::Head(Ok(None)))).unwrap_err(), "HEAD is not a valid branch");

    let (mut f, _) = PullFlow::start("pat");
    f.step(PullReply::Opened(Ok(())));
    f.step(PullReply::OriginFound(Ok(())));
    f.step(PullReply::Head(Ok(Some("dev".into()))));
    let net = classed(git2::ErrorClass::Net, "unreachable");
    assert_eq!(finish_pull(f.step(PullReply::Fetched(Err(net)))).unwrap_err(), "Fetch failed (Net): unreachable");

    let (mut f, _) = PullFlow::start("pat");
    f.step(PullReply::Opened(Ok(())));
    f.step(PullReply::OriginFound(Ok(())));
    f.step(PullReply::Head(Ok(Some("dev".into()))));
    f.step(PullReply::Fetched(Ok(())));
    assert_eq!(
        finish_pull(f.step(PullReply::ReferenceFound(Err(plain_error("x"))))).unwrap_err(),
        "Remote branch 'origin/dev' does not exist"
    );

    let mut f = pull_to_analysis("dev");
    f.step(PullReply::Analyzed(Ok((git2::MergeAnalysis::ANALYSIS_FASTFORWARD.bits(), fetched_id()))));
    f.step(PullReply::FastForwarded(Ok(())));
    assert_eq!(
        finish_pull(f.step(PullReply::CheckedOut(Err(lock_error())))).unwrap_err(),
        "'dev' is locked by another program — close it and try again"
    );
}

#[test]
fn credentials_are_handed_out_once() {
    let mut gate = CredentialGate::new();
    match gate.answer("my-pat") {
        CredentialAnswer::UserPass { username, password } => {
            assert_eq!(username, "x-access-token");
            assert_eq!(password, "my-pat");
        }
        CredentialAnswer::Refuse(_) => panic!("the first request gets the credentials"),
    }
    for _ in 0..3 {
        match gate.answer("my-pat") {
            CredentialAnswer::Refuse(m) => assert!(m.starts_with("Authentication rejected")),
            CredentialAnswer::UserPass { .. } => panic!("later requests are refused"),
        }
    }
}

fn finish_sync(a: SyncAction) -> Result<String, String> {
    match a {
        SyncAction::Finish(r) => r,
        _ => panic!("expected the transfer to finish"),
    }
}

#[test]
fn push_pushes_current_branch() {
    let (mut f, _) = SyncFlow::start(SyncKind::Push, "pat");
    f.step(SyncReply::Opened(Ok(())));
    assert!(matches!(f.step(SyncReply::OriginFound(Ok(()))), SyncAction::ReadHead));
    match f.step(SyncReply::Head(Ok(Some("feature".into())))) {
        SyncAction::Push(spec) => assert_eq!(spec, "refs/heads/feature:refs/heads/feature"),
        _ => panic!("expected a push"),
    }
    assert_eq!(finish_sync(f.step(SyncReply::Transferred(Ok(())))).unwrap(), "Pushed feature to origin");

    let (mut f, _) = SyncFlow::start(SyncKind::Push, "pat");
    f.step(SyncReply::Opened(Ok(())));
    f.step(SyncReply::OriginFound(Ok(())));
    match f.step(SyncReply::Head(Ok(None))) {
        SyncAction::Push(spec) => assert_eq!(spec, "refs/heads/main:refs/heads/main"),
        _ => panic!("expected a push"),
    }
    let e = classed(git2::ErrorClass::Http, "denied");
    assert_eq!(finish_sync(f.step(SyncReply::Transferred(Err(e)))).unwrap_err(), "Push failed (Http): denied");
}

#[test]
fn push_and_fetch_require_a_pat() {
    let (_, a) = SyncFlow::start(SyncKind::Push, " ");
    assert_eq!(finish_sync(a).unwrap_err(), "No PAT available for push");
    let (_, a) = SyncFlow::start(SyncKind::Fetch, "");
    assert_eq!(finish_sync(a).unwrap_err(), "No PAT available for fetch");
}

#[test]
fn fetch_fetches_without_reading_head() {
    let (mut f, _) = SyncFlow::start(SyncKind::Fetch, "pat");
    f.step(SyncReply::Opened(Ok(())));
    assert!(matches!(f.step(SyncReply::OriginFound(Ok(()))), SyncAction::Fetch));
    assert_eq!(finish_sync(f.step(SyncReply::Transferred(Ok(())))).unwrap(), "Fetched from origin");
}

#[test]
fn clone_requires_non_empty_pat() {
    let result = check_clone("https://example.com/user/repo.git", "");
    assert!(result.is_err());
    assert!(result.unwrap_err().contains("PAT"));
}

#[test]
fn clone_requires_non_empty_url() {
    let result = check_clone("", "dummy-pat");
    assert!(result.is_err());
    assert!(result.unwrap_err().contains("URL"));
}

#[test]
fn clone_checks_pat_before_url_and_reports_failures() {
    assert_eq!(check_clone("", "").unwrap_err(), "No PAT available for clone");
    assert!(check_clone("https://example.com/r.git", "pat").is_ok());
    assert!(clone_result(Ok(())).is_ok());
    let e = classed(git2::ErrorClass::Net, "no such host");
    assert_eq!(clone_result(Err(e)).unwrap_err(), "Clone failed (Net): no such host");
}

#[test]
fn discard_file_removes_untracked_file() {
    let (mut f, _) = DiscardFlow::start("throwaway.txt".to_string());
    assert!(matches!(f.step(DiscardReply::Opened(Ok(()))), DiscardAction::CheckTracked(ref p) if p == "throwaway.txt"));
    assert!(matches!(f.step(DiscardReply::InHead(Err(plain_error("the path does not exist in the given tree")))), DiscardAction::CheckExists(_)));
    assert!(matches!(f.step(DiscardReply::Exists(true)), DiscardAction::Remove(ref p) if p == "throwaway.txt"));
    assert!(matches!(f.step(DiscardReply::Removed(Ok(()))), DiscardAction::Finish(Ok(()))));
}

#[test]
fn discard_restores_tracked_file_and_reports_locks() {
    let (mut f, _) = DiscardFlow::start("a.txt".to_string());
    f.step(DiscardReply::Opened(Ok(())));
    assert!(matches!(f.step(DiscardReply::InHead(Ok(()))), DiscardAction::Checkout(ref p) if p == "a.txt"));
    match f.step(DiscardReply::CheckedOut(Err(lock_error()))) {
        DiscardAction::Finish(Err(t)) => assert_eq!(t, "'a.txt' is locked by another program — close it and try again"),
        _ => panic!("expected a lock report"),
    }

    let (mut f, _) = DiscardFlow::start("gone.txt".to_string());
    f.step(DiscardReply::Opened(Ok(())));
    f.step(DiscardReply::InHead(Err(plain_error("the path does not exist in the given tree"))));
    assert!(matches!(f.step(DiscardReply::Exists(false)), DiscardAction::Finish(Ok(()))));

    let (mut f, _) = DiscardFlow::start("busy.txt".to_string());
    f.step(DiscardReply::Opened(Ok(())));
    f.step(DiscardReply::InHead(Err(plain_error("the path does not exist in the given tree"))));
    f.step(DiscardReply::Exists(true));
    match f.step(DiscardReply::Removed(Err("Access is denied. (os error 5)".to_string()))) {
        DiscardAction::Finish(Err(t)) => assert_eq!(
            t,
            "'busy.txt' is locked by another program — close it and try again: Access is denied. (os error 5)"
        ),
        _ => panic!("expected a removal failure"),
    }
}

#[test]
fn switch_branch_steps() {
    let mut id = [0u8; 20];
    id[5] = 0x42;
    let (mut f, a) = SwitchFlow::start("dev".to_string());
    assert!(matches!(a, SwitchAction::OpenRepository));
    assert!(matches!(f.step(SwitchReply::Opened(Ok(()))), SwitchAction::Resolve(ref r) if r == "refs/heads/dev"));
    assert!(matches!(f.step(SwitchReply::Resolved(Ok(id))), SwitchAction::CheckoutTree(t) if t == id));
    assert!(matches!(f.step(SwitchReply::CheckedOut(Ok(()))), SwitchAction::SetHead(ref r) if r == "refs/heads/dev"));
    assert!(matches!(f.step(SwitchReply::HeadSet(Ok(()))), SwitchAction::Finish(Ok(()))));

    let (mut f, _) = SwitchFlow::start("dev".to_string());
    f.step(SwitchReply::Opened(Ok(())));
    f.step(SwitchReply::Resolved(Ok(id)));
    match f.step(SwitchReply::CheckedOut(Err(lock_error()))) {
        SwitchAction::Finish(Err(t)) => assert_eq!(t, "'dev' is locked by another program — close it and try again"),
        _ => panic!("expected a lock report"),
    }

    let (mut f, _) = SwitchFlow::start("nope".to_string());
    f.step(SwitchReply::Opened(Ok(())));
    match f.step(SwitchReply::Resolved(Err(plain_error("revspec 'refs/heads/nope' not found")))) {
        SwitchAction::Finish(Err(t)) => assert_eq!(t, "revspec 'refs/heads/nope' not found"),
        _ => panic!("expected the resolve failure"),
    }
}

fn info(n: u8, summary: &str, time: i64) -> CommitInfo {
    let mut id = [0u8; 20];
    id[0] = n;
    CommitInfo { id, summary: Some(summary.to_string()), time }
}

#[test]
fn history_lists_commits_up_to_the_limit() {
    let now = 1_700_000_000;
    let (mut f, a) = HistoryFlow::start(now);
    assert!(matches!(a, HistoryAction::OpenRepository));
    assert!(matches!(f.step(HistoryReply::Opened(Ok(()))), HistoryAction::CheckHead));
    assert!(matches!(f.step(HistoryReply::HeadChecked(true)), HistoryAction::StartWalk));
    assert!(matches!(f.step(HistoryReply::WalkStarted(Ok(()))), HistoryAction::NextCommit));
    let mut last = HistoryAction::NextCommit;
    let mut asked = 0;
    while matches!(last, HistoryAction::NextCommit) {
        asked += 1;
        last = f.step(HistoryReply::Next(Some(Ok(info(asked as u8, "Initial commit", now - 120)))));
    }
    assert_eq!(asked, HISTORY_LIMIT);
    match last {
        HistoryAction::Finish(Ok(entries)) => {
            assert_eq!(entries.len(), HISTORY_LIMIT);
            assert_eq!(entries[0].message, "Initial commit");
            assert_eq!(entries[0].hash, "0100000");
            assert_eq!(entries[0].time_ago, "2 minutes ago");
        }
        _ => panic!("expected the listing"),
    }
}

#[test]
fn history_of_empty_repository_is_empty() {
    let (mut f, _) = HistoryFlow::start(0);
    f.step(HistoryReply::Opened(Ok(())));
    match f.step(HistoryReply::HeadChecked(false)) {
        HistoryAction::Finish(Ok(entries)) => assert!(entries.is_empty()),
        _ => panic!("expected an empty listing"),
    }
}

#[test]
fn history_ends_with_the_walk_and_reports_failures() {
    let (mut f, _) = HistoryFlow::start(10_000);
    f.step(HistoryReply::Opened(Ok(())));
    f.step(HistoryReply::HeadChecked(true));
    f.step(HistoryReply::WalkStarted(Ok(())));
    f.step(HistoryReply::Next(Some(Ok(CommitInfo { id: [0xab; 20], summary: None, time: 0 }))));
    match f.step(HistoryReply::Next(None)) {
        HistoryAction::Finish(Ok(entries)) => {
            assert_eq!(entries.len(), 1);
            assert_eq!(entries[0].message, "");
            assert_eq!(entries[0].hash, "abababa");
        }
        _ => panic!("expected the listing"),
    }
    let (mut f, _) = HistoryFlow::start(0);
    f.step(HistoryReply::Opened(Ok(())));
    f.step(HistoryReply::HeadChecked(true));
    f.step(HistoryReply::WalkStarted(Ok(())));
    match f.step(HistoryReply::Next(Some(Err(plain_error("bad object"))))) {
        HistoryAction::Finish(Err(t)) => assert_eq!(t, "bad object"),
        _ => panic!("expected a failure"),
    }
}

fn line(origin: char, content: &[u8]) -> DiffLine {
    DiffLine { origin, content: content.to_vec() }
}

#[test]
fn diff_lines_are_prefixed_by_origin() {
    let lines = vec![
        line('F', b"diff --git a/a.txt b/a.txt\n"),
        line('H', b"@@ -1 +1 @@\n"),
        line('-', b"old\n"),
        line('+', b"new\n"),
        line(' ', b"same\n"),
        line('>', b"\\ No newline at end of file\n"),
    ];
    assert_eq!(
        render_patch(&lines),
        "diff --git a/a.txt b/a.txt\n@@ -1 +1 @@\n-old\n+new\n same\n\\ No newline at end of file\n"
    );
    assert_eq!(render_patch(&vec![line('+', b"caf\xc3\xa9\n")]), "+café\n");
    assert_eq!(render_patch(&vec![line('+', b"bad \xff byte\n")]), "+bad \u{fffd} byte\n");
}

#[test]
fn blank_diff_gets_a_note() {
    assert_eq!(diff_report_text(&vec![]), "(no textual diff available — binary or empty file)");
    assert_eq!(diff_report_text(&vec![line('F', b"  \n")]), "(no textual diff available — binary or empty file)");
    assert_eq!(diff_report_text(&vec![line('+', b"x\n")]), "+x\n");
}

#[test]
fn api_requests() {
    assert!(token_check_request("  ").is_none());
    let q = token_check_request("abc").unwrap();
    assert_eq!(q.url, "https://api.github.com/user");
    assert_eq!(q.authorization, "Bearer abc");
    assert_eq!(q.user_agent, "ghostgit");
    assert_eq!(q.accept, "application/vnd.github+json");
    assert_eq!(repos_request("").err().unwrap(), "No PAT provided");
    let q = repos_request("abc").ok().unwrap();
    assert!(q.url.starts_with("https://api.github.com/user/repos?"));
    assert!(repos_status(true, "200 OK").is_ok());
    assert_eq!(repos_status(false, "401 Unauthorized").unwrap_err(), "GitHub API error: 401 Unauthorized");
}
