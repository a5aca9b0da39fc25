//! Committing: the decisions around staging the chosen paths and creating
//! a commit on HEAD with the session's author identity. The caller does
//! the repository work each action names and reports how it went.

use vstd::prelude::*;
use vstd::string::*;
use crate::errors::{
    describe_lock_error, error_text, lock_description, result_view, ErrClass, ErrCode, GitError,
    GitErrorView,
};
use crate::git::{hex_lower, short_hash};
use crate::records::{CommitEntry, CommitEntryView};
use crate::text::{blank, is_blank, join, join_text, views};

verus! {

/// Where a commit stands.
#[derive(PartialEq, Eq, Structural, Clone, Copy, Debug)]
pub enum CommitStage {
    /// Opening the repository and its index.
    Opening,
    /// Asking whether the path at this index is ignored.
    Checking(usize),
    /// Staging the path at this index.
    Staging(usize),
    /// Writing the index back.
    Writing,
    /// Looking up the commit HEAD points at, the new commit's parent.
    ReadingParent,
    /// Creating the commit.
    Committing,
    /// Done; the result is known.
    Finished,
}

/// What the caller is to do next.
pub enum CommitAction {
    /// Open the repository and its index.
    OpenIndex,
    /// Ask whether the repository's ignore rules cover this path.
    CheckIgnored(String),
    /// Stage this path in the index (trying again while it is locked).
    Stage(String),
    /// Write the index back (trying again while it is locked).
    WriteIndex,
    /// Look up the commit that HEAD points at.
    ReadParent,
    /// Write the index's tree and commit it on HEAD with this message;
    /// the author and the committer are both this name and email, signed
    /// now; the one parent is the commit with id `parent`, or there is
    /// none.
    Commit { message: String, author_name: String, author_email: String, parent: Option<[u8; 20]> },
    /// Report this result.
    Finish(Result<CommitEntry, String>),
}

pub enum CommitActionView {
    OpenIndex,
    CheckIgnored(Seq<char>),
    Stage(Seq<char>),
    WriteIndex,
    ReadParent,
    Commit {
        message: Seq<char>,
        author_name: Seq<char>,
        author_email: Seq<char>,
        parent: Option<Seq<u8>>,
    },
    Finish(Result<CommitEntryView, Seq<char>>),
}

pub open spec fn id_option_view(o: Option<[u8; 20]>) -> Option<Seq<u8>> {
    match o {
        Some(id) => Some(id@),
        None => None,
    }
}

pub open spec fn entry_result_view(r: Result<CommitEntry, String>) -> Result<CommitEntryView, Seq<char>> {
    match r {
        Ok(e) => Ok(e@),
        Err(s) => Err(s@),
    }
}

impl View for CommitAction {
    type V = CommitActionView;

    open spec fn view(&self) -> CommitActionView {
        match self {
            CommitAction::OpenIndex => CommitActionView::OpenIndex,
            CommitAction::CheckIgnored(p) => CommitActionView::CheckIgnored(p@),
            CommitAction::Stage(p) => CommitActionView::Stage(p@),
            CommitAction::WriteIndex => CommitActionView::WriteIndex,
            CommitAction::ReadParent => CommitActionView::ReadParent,
            CommitAction::Commit { message, author_name, author_email, parent } => {
                CommitActionView::Commit {
                    message: message@,
                    author_name: author_name@,
                    author_email: author_email@,
                    parent: id_option_view(*parent),
                }
            },
            CommitAction::Finish(r) => CommitActionView::Finish(entry_result_view(*r)),
        }
    }
}

/// How the caller's work went.
pub enum CommitReply {
    /// The repository and its index were opened, or not.
    Opened(Result<(), GitError>),
    /// Whether the path is ignored, or the failure of asking.
    IgnoreChecked(Result<bool, GitError>),
    /// The path was staged, or the last failure of staging it.
    Staged(Result<(), GitError>),
    /// The index was written, or the last failure of writing it.
    Written(Result<(), GitError>),
    /// The id of the commit HEAD points at; absent when HEAD points at no
    /// object directly; or the failure of reading HEAD or of finding that
    /// commit.
    HeadRead(Result<Option<[u8; 20]>, GitError>),
    /// The id of the new commit, or the first failure on the way to it.
    Committed(Result<[u8; 20], GitError>),
}

pub enum CommitReplyView {
    Opened(Result<(), GitErrorView>),
    IgnoreChecked(Result<bool, GitErrorView>),
    Staged(Result<(), GitErrorView>),
    Written(Result<(), GitErrorView>),
    HeadRead(Result<Option<Seq<u8>>, GitErrorView>),
    Committed(Result<Seq<u8>, GitErrorView>),
}

impl View for CommitReply {
    type V = CommitReplyView;

    open spec fn view(&self) -> CommitReplyView {
        match self {
            CommitReply::Opened(r) => CommitReplyView::Opened(result_view(*r)),
            CommitReply::IgnoreChecked(r) => CommitReplyView::IgnoreChecked(result_view(*r)),
            CommitReply::Staged(r) => CommitReplyView::Staged(result_view(*r)),
            CommitReply::Written(r) => CommitReplyView::Written(result_view(*r)),
            CommitReply::HeadRead(r) => CommitReplyView::HeadRead(
                match r {
                    Ok(o) => Ok(id_option_view(*o)),
                    Err(e) => Err(e@),
                },
            ),
            CommitReply::Committed(r) => CommitReplyView::Committed(
                match r {
                    Ok(id) => Ok(id@),
                    Err(e) => Err(e@),
                },
            ),
        }
    }
}

/// One commit under way.
pub struct CommitFlow {
    message: String,
    paths: Vec<String>,
    author_name: String,
    author_email: String,
    parent: Option<[u8; 20]>,
    stage: CommitStage,
    result: Option<Result<CommitEntry, String>>,
}

pub struct CommitFlowView {
    pub message: Seq<char>,
    pub paths: Seq<Seq<char>>,
    /// The author, who is also the committer.
    pub author_name: Seq<char>,
    pub author_email: Seq<char>,
    /// The new commit's parent, once HEAD has been read.
    pub parent: Option<Seq<u8>>,
    pub stage: CommitStage,
    pub result: Option<Result<CommitEntryView, Seq<char>>>,
}

impl View for CommitFlow {
    type V = CommitFlowView;

    closed spec fn view(&self) -> CommitFlowView {
        CommitFlowView {
            message: self.message@,
            paths: views(self.paths@),
            author_name: self.author_name@,
            author_email: self.author_email@,
            parent: id_option_view(self.parent),
            stage: self.stage,
            result: match self.result {
                Some(r) => Some(entry_result_view(r)),
                None => None,
            },
        }
    }
}

/// The refusal of a blank commit message.
pub open spec fn empty_message_text() -> Seq<char> {
    "Commit message cannot be empty"@
}

/// The refusal of a commit with nothing chosen to stage.
pub open spec fn no_paths_text() -> Seq<char> {
    "No files staged for commit"@
}

/// The refusal of a path that the repository ignores.
pub open spec fn ignored_text(path: Seq<char>) -> Seq<char> {
    "'"@ + path + "' is excluded by .gitignore and cannot be committed"@
}

/// A path that could not be staged.
pub open spec fn stage_failed_text(path: Seq<char>, e: GitErrorView) -> Seq<char> {
    "Failed to stage "@ + path + ": "@ + lock_description(path, e)
}

/// The entry reported for a new commit with id `id`.
pub open spec fn new_entry(id: Seq<u8>, message: Seq<char>) -> CommitEntryView {
    CommitEntryView { hash: hex_lower(id).subrange(0, 7), message, time_ago: "just now"@ }
}

pub open spec fn finished(f: CommitFlowView, r: Result<CommitEntryView, Seq<char>>) -> CommitFlowView {
    CommitFlowView { stage: CommitStage::Finished, result: Some(r), ..f }
}

pub open spec fn at(f: CommitFlowView, stage: CommitStage) -> CommitFlowView {
    CommitFlowView { stage, ..f }
}

/// The new commit's parent as HEAD was read: the commit HEAD points at;
/// none when HEAD points at no object directly, or when reading it failed.
pub open spec fn parent_of(r: Result<Option<Seq<u8>>, GitErrorView>) -> Option<Seq<u8>> {
    match r {
        Ok(Some(id)) => Some(id),
        _ => None,
    }
}

/// A commit of `message` for `paths` by the given author: a blank message
/// is refused at once, before the repository is opened.
pub open spec fn commit_start(
    message: Seq<char>,
    paths: Seq<Seq<char>>,
    author_name: Seq<char>,
    author_email: Seq<char>,
) -> CommitFlowView {
    let f = CommitFlowView {
        message,
        paths,
        author_name,
        author_email,
        parent: None,
        stage: CommitStage::Opening,
        result: None,
    };
    if is_blank(message) {
        finished(f, Err(empty_message_text()))
    } else {
        f
    }
}

/// What a reply does to a commit. A reply that does not answer the
/// pending action changes nothing.
pub open spec fn commit_next(f: CommitFlowView, r: CommitReplyView) -> CommitFlowView {
    let n = f.paths.len();
    match f.stage {
        CommitStage::Opening => match r {
            CommitReplyView::Opened(Ok(_)) => if n == 0 {
                finished(f, Err(no_paths_text()))
            } else {
                at(f, CommitStage::Checking(0))
            },
            CommitReplyView::Opened(Err(e)) => finished(f, Err(error_text(e))),
            _ => f,
        },
        CommitStage::Checking(i) => match r {
            CommitReplyView::IgnoreChecked(res) => if res == Ok::<bool, GitErrorView>(true) {
                finished(f, Err(ignored_text(f.paths[i as int])))
            } else if i + 1 < n {
                at(f, CommitStage::Checking((i + 1) as usize))
            } else {
                at(f, CommitStage::Staging(0))
            },
            _ => f,
        },
        CommitStage::Staging(i) => match r {
            CommitReplyView::Staged(Ok(_)) => if i + 1 < n {
                at(f, CommitStage::Staging((i + 1) as usize))
            } else {
                at(f, CommitStage::Writing)
            },
            CommitReplyView::Staged(Err(e)) => finished(
                f,
                Err(stage_failed_text(f.paths[i as int], e)),
            ),
            _ => f,
        },
        CommitStage::Writing => match r {
            CommitReplyView::Written(Ok(_)) => at(f, CommitStage::ReadingParent),
            CommitReplyView::Written(Err(e)) => finished(
                f,
                Err(lock_description(join(f.paths, ", "@), e)),
            ),
            _ => f,
        },
        CommitStage::ReadingParent => match r {
            CommitReplyView::HeadRead(res) => CommitFlowView {
                stage: CommitStage::Committing,
                parent: parent_of(res),
                ..f
            },
            _ => f,
        },
        CommitStage::Committing => match r {
            CommitReplyView::Committed(Ok(id)) => finished(f, Ok(new_entry(id, f.message))),
            CommitReplyView::Committed(Err(e)) => finished(f, Err(error_text(e))),
            _ => f,
        },
        CommitStage::Finished => f,
    }
}

/// The action a commit asks for in each stage.
pub open spec fn commit_action(f: CommitFlowView) -> CommitActionView {
    match f.stage {
        CommitStage::Opening => CommitActionView::OpenIndex,
        CommitStage::Checking(i) => CommitActionView::CheckIgnored(f.paths[i as int]),
        CommitStage::Staging(i) => CommitActionView::Stage(f.paths[i as int]),
        CommitStage::Writing => CommitActionView::WriteIndex,
        CommitStage::ReadingParent => CommitActionView::ReadParent,
        CommitStage::Committing => CommitActionView::Commit {
            message: f.message,
            author_name: f.author_name,
            author_email: f.author_email,
            parent: f.parent,
        },
        CommitStage::Finished => CommitActionView::Finish(f.result.unwrap()),
    }
}

/// The shape every commit keeps: indices point into the paths, and the
/// result is known exactly when the commit is finished.
pub open spec fn commit_wf(f: CommitFlowView) -> bool {
    &&& match f.stage {
        CommitStage::Checking(i) => i < f.paths.len(),
        CommitStage::Staging(i) => i < f.paths.len(),
        _ => true,
    }
    &&& (f.stage == CommitStage::Finished <==> f.result is Some)
}

/// The commit after the caller's replies `rs`, in order.
pub open spec fn commit_after(f: CommitFlowView, rs: Seq<CommitReplyView>) -> CommitFlowView
    decreases rs.len(),
{
    if rs.len() == 0 {
        f
    } else {
        commit_next(commit_after(f, rs.drop_last()), rs.last())
    }
}

/// Whether a reply to an ignore check lets the path through: it is not
/// ignored, or asking failed.
pub open spec fn clears(r: CommitReplyView) -> bool {
    match r {
        CommitReplyView::IgnoreChecked(res) => res != Ok::<bool, GitErrorView>(true),
        _ => false,
    }
}

/// How many paths a commit has let through the ignore check.
pub open spec fn cleared_count(f: CommitFlowView) -> int {
    match f.stage {
        CommitStage::Opening => 0,
        CommitStage::Checking(i) => i as int,
        CommitStage::Staging(_) => f.paths.len() as int,
        CommitStage::Writing => f.paths.len() as int,
        CommitStage::ReadingParent => f.paths.len() as int,
        CommitStage::Committing => f.paths.len() as int,
        CommitStage::Finished => match f.result {
            Some(Ok(_)) => f.paths.len() as int,
            _ => 0,
        },
    }
}

proof fn lemma_next_keeps_wf(f: CommitFlowView, r: CommitReplyView)
    requires
        commit_wf(f),
    ensures
        commit_wf(commit_next(f, r)),
        commit_next(f, r).paths == f.paths,
        commit_next(f, r).message == f.message,
{
}

proof fn lemma_after_keeps_wf(f: CommitFlowView, rs: Seq<CommitReplyView>)
    requires
        commit_wf(f),
    ensures
        commit_wf(commit_after(f, rs)),
        commit_after(f, rs).paths == f.paths,
        commit_after(f, rs).message == f.message,
    decreases rs.len(),
{
    if rs.len() > 0 {
        lemma_after_keeps_wf(f, rs.drop_last());
        lemma_next_keeps_wf(commit_after(f, rs.drop_last()), rs.last());
    }
}

proof fn lemma_cleared_step(f: CommitFlowView, r: CommitReplyView)
    requires
        commit_wf(f),
    ensures
        cleared_count(commit_next(f, r)) <= cleared_count(f) || (f.stage == CommitStage::Checking(
            cleared_count(f) as usize,
        ) && clears(r) && cleared_count(commit_next(f, r)) == cleared_count(f) + 1),
{
}

/// A finished commit stays finished, with the same result.
pub proof fn law_finished_is_final(f: CommitFlowView, rs: Seq<CommitReplyView>)
    requires
        f.stage == CommitStage::Finished,
    ensures
        commit_after(f, rs) == f,
    decreases rs.len(),
{
    if rs.len() > 0 {
        law_finished_is_final(f, rs.drop_last());
    }
}

/// A blank message is refused before anything is asked of the
/// repository, whatever comes after.
pub proof fn law_blank_message_refused(
    message: Seq<char>,
    paths: Seq<Seq<char>>,
    author_name: Seq<char>,
    author_email: Seq<char>,
    rs: Seq<CommitReplyView>,
)
    requires
        is_blank(message),
    ensures
        commit_action(commit_start(message, paths, author_name, author_email)) == CommitActionView::Finish(
            Err(empty_message_text()),
        ),
        commit_after(commit_start(message, paths, author_name, author_email), rs) == commit_start(message, paths, author_name, author_email),
{
    law_finished_is_final(commit_start(message, paths, author_name, author_email), rs);
}

/// Once a chosen path is reported ignored, the commit ends refused with a
/// text naming that path, and nothing more is asked of the repository.
pub proof fn law_ignored_path_refused(
    f: CommitFlowView,
    rs: Seq<CommitReplyView>,
    k: int,
    i: usize,
    later: int,
)
    requires
        commit_wf(f),
        0 <= k < later <= rs.len(),
        commit_after(f, rs.take(k)).stage == CommitStage::Checking(i),
        rs[k] == CommitReplyView::IgnoreChecked(Ok(true)),
    ensures
        commit_after(f, rs.take(later)).stage == CommitStage::Finished,
        commit_after(f, rs.take(later)).result == Some(
            Err::<CommitEntryView, Seq<char>>(ignored_text(f.paths[i as int])),
        ),
{
    let g = commit_after(f, rs.take(k));
    lemma_after_keeps_wf(f, rs.take(k));
    assert(rs.take(k + 1).drop_last() =~= rs.take(k));
    let h = commit_after(f, rs.take(k + 1));
    assert(h == commit_next(g, rs[k]));
    let rest = rs.subrange(k + 1, later);
    law_finished_is_final(h, rest);
    lemma_after_split(f, rs.take(k + 1), rest);
    assert(rs.take(k + 1) + rest =~= rs.take(later));
}

proof fn lemma_after_split(f: CommitFlowView, a: Seq<CommitReplyView>, b: Seq<CommitReplyView>)
    ensures
        commit_after(f, a + b) == commit_after(commit_after(f, a), b),
    decreases b.len(),
{
    if b.len() > 0 {
        lemma_after_split(f, a, b.drop_last());
        assert((a + b).drop_last() =~= a + b.drop_last());
    }
}

/// At reply `j`, path `p` was the one being checked and was let through.
pub open spec fn cleared_at(f: CommitFlowView, rs: Seq<CommitReplyView>, j: int, p: int) -> bool {
    commit_after(f, rs.take(j)).stage == CommitStage::Checking(p as usize) && clears(rs[j])
}

/// Path `p` was let through at some reply before the `k`-th.
pub open spec fn cleared_before(f: CommitFlowView, rs: Seq<CommitReplyView>, k: int, p: int) -> bool {
    exists|j: int| 0 <= j < k && #[trigger] cleared_at(f, rs, j, p)
}

/// Every path below the cleared count was let through earlier.
pub open spec fn cleared_by(f: CommitFlowView, rs: Seq<CommitReplyView>, k: int) -> bool {
    forall|p: int|
        0 <= p < cleared_count(commit_after(f, rs.take(k))) ==> #[trigger] cleared_before(
            f,
            rs,
            k,
            p,
        )
}

proof fn lemma_cleared_by(f: CommitFlowView, rs: Seq<CommitReplyView>, k: int)
    requires
        commit_wf(f),
        cleared_count(f) == 0,
        0 <= k <= rs.len(),
    ensures
        cleared_by(f, rs, k),
    decreases k,
{
    if k == 0 {
        assert(rs.take(0) =~= Seq::<CommitReplyView>::empty());
    } else {
        lemma_cleared_by(f, rs, k - 1);
        let g = commit_after(f, rs.take(k - 1));
        lemma_after_keeps_wf(f, rs.take(k - 1));
        assert(rs.take(k).drop_last() =~= rs.take(k - 1));
        assert(commit_after(f, rs.take(k)) == commit_next(g, rs[k - 1]));
        lemma_cleared_step(g, rs[k - 1]);
        assert forall|p: int|
            0 <= p < cleared_count(commit_after(f, rs.take(k))) implies #[trigger] cleared_before(
            f,
            rs,
            k,
            p,
        ) by {
            if p < cleared_count(g) {
                assert(cleared_before(f, rs, k - 1, p));
                let j = choose|j: int| 0 <= j < k - 1 && #[trigger] cleared_at(f, rs, j, p);
                assert(cleared_at(f, rs, j, p));
            } else {
                assert(cleared_at(f, rs, k - 1, p));
            }
        }
    }
}

/// Nothing is staged, written or committed unless every chosen path was
/// checked against the ignore rules and let through: a path that was
/// being checked when the reply said "ignored" can never reach a commit.
pub proof fn law_only_cleared_paths_are_staged(
    message: Seq<char>,
    paths: Seq<Seq<char>>,
    author_name: Seq<char>,
    author_email: Seq<char>,
    rs: Seq<CommitReplyView>,
    k: int,
    p: int,
)
    requires
        0 <= k <= rs.len(),
        0 <= p < paths.len(),
        ({
            let g = commit_after(commit_start(message, paths, author_name, author_email), rs.take(k));
            ||| g.stage is Staging
            ||| g.stage == CommitStage::Writing
            ||| g.stage == CommitStage::Committing
            ||| g.result matches Some(Ok(_))
        }),
    ensures
        cleared_before(commit_start(message, paths, author_name, author_email), rs, k, p),
{
    let f = commit_start(message, paths, author_name, author_email);
    lemma_cleared_by(f, rs, k);
    lemma_after_keeps_wf(f, rs.take(k));
}

/// A successful commit reports the message it was given and "just now".
pub open spec fn reports_message(f: CommitFlowView) -> bool {
    f.result matches Some(Ok(e)) ==> e.message == f.message && e.time_ago == "just now"@
}

/// Whatever the replies, a commit that succeeds reports exactly the
/// message it was started with, made "just now".
pub proof fn law_commit_reports_its_message(
    message: Seq<char>,
    paths: Seq<Seq<char>>,
    author_name: Seq<char>,
    author_email: Seq<char>,
    rs: Seq<CommitReplyView>,
)
    ensures
        reports_message(commit_after(commit_start(message, paths, author_name, author_email), rs)),
        commit_after(commit_start(message, paths, author_name, author_email), rs).message == message,
    decreases rs.len(),
{
    let f = commit_start(message, paths, author_name, author_email);
    lemma_after_keeps_wf(f, rs);
    if rs.len() > 0 {
        law_commit_reports_its_message(message, paths, author_name, author_email, rs.drop_last());
        lemma_after_keeps_wf(f, rs.drop_last());
    }
}

/// `n` replies that let each checked path through.
pub open spec fn clear_replies(n: nat) -> Seq<CommitReplyView> {
    Seq::new(n, |i: int| CommitReplyView::IgnoreChecked(Ok(false)))
}

/// `n` replies that each staged path was staged.
pub open spec fn staged_replies(n: nat) -> Seq<CommitReplyView> {
    Seq::new(n, |i: int| CommitReplyView::Staged(Ok(())))
}

proof fn lemma_after_one(f: CommitFlowView, r: CommitReplyView)
    ensures
        commit_after(f, seq![r]) == commit_next(f, r),
{
    let one = seq![r];
    assert(one.drop_last() =~= Seq::<CommitReplyView>::empty());
    assert(commit_after(f, one.drop_last()) == f);
    assert(one.last() == r);
}

proof fn lemma_checks_pass(f: CommitFlowView, i: nat)
    requires
        commit_wf(f),
        f.paths.len() <= usize::MAX,
        f.stage == CommitStage::Checking(i as usize),
        i < f.paths.len(),
    ensures
        commit_after(f, clear_replies((f.paths.len() - i) as nat)) == at(f, CommitStage::Staging(0)),
    decreases f.paths.len() - i,
{
    let n = f.paths.len();
    let rs = clear_replies((n - i) as nat);
    let g = commit_next(f, CommitReplyView::IgnoreChecked(Ok(false)));
    assert(seq![CommitReplyView::IgnoreChecked(Ok(false))] + clear_replies((n - i - 1) as nat) =~= rs);
    lemma_after_split(f, seq![CommitReplyView::IgnoreChecked(Ok(false))], clear_replies((n - i - 1) as nat));
    lemma_after_one(f, CommitReplyView::IgnoreChecked(Ok(false)));
    if i + 1 < n {
        lemma_checks_pass(g, i + 1);
    } else {
        assert(clear_replies(0) =~= Seq::<CommitReplyView>::empty());
    }
}

proof fn lemma_stages_pass(f: CommitFlowView, i: nat)
    requires
        commit_wf(f),
        f.paths.len() <= usize::MAX,
        f.stage == CommitStage::Staging(i as usize),
        i < f.paths.len(),
    ensures
        commit_after(f, staged_replies((f.paths.len() - i) as nat)) == at(f, CommitStage::Writing),
        forall|j: nat|
            j < f.paths.len() - i ==> #[trigger] commit_after(f, staged_replies(j)) == at(
                f,
                CommitStage::Staging((i + j) as usize),
            ),
    decreases f.paths.len() - i,
{
    let n = f.paths.len();
    let one = seq![CommitReplyView::Staged(Ok(()))];
    let g = commit_next(f, CommitReplyView::Staged(Ok(())));
    lemma_after_one(f, CommitReplyView::Staged(Ok(())));
    assert(one + staged_replies((n - i - 1) as nat) =~= staged_replies((n - i) as nat));
    lemma_after_split(f, one, staged_replies((n - i - 1) as nat));
    if i + 1 < n {
        lemma_stages_pass(g, i + 1);
    } else {
        assert(staged_replies(0) =~= Seq::<CommitReplyView>::empty());
    }
    assert forall|j: nat| j < n - i implies #[trigger] commit_after(f, staged_replies(j)) == at(
        f,
        CommitStage::Staging((i + j) as usize),
    ) by {
        if j == 0 {
            assert(staged_replies(0) =~= Seq::<CommitReplyView>::empty());
        } else {
            assert(one + staged_replies((j - 1) as nat) =~= staged_replies(j));
            lemma_after_split(f, one, staged_replies((j - 1) as nat));
            assert(commit_after(g, staged_replies((j - 1) as nat)) == at(
                g,
                CommitStage::Staging((i + 1 + (j - 1)) as usize),
            ));
        }
    }
}

/// A commit whose message is not blank, with at least one path, none of
/// them ignored: every path is checked, then every path is staged in
/// order, the index is written, HEAD is read, and the commit is made by
/// the author given at the start, as author and committer, on top of the
/// commit HEAD pointed at (or of none); it succeeds and reports the first
/// seven hex digits of the new commit's id, its message, and "just now".
pub proof fn law_commit_goes_through(
    message: Seq<char>,
    paths: Seq<Seq<char>>,
    author_name: Seq<char>,
    author_email: Seq<char>,
    head: Result<Option<Seq<u8>>, GitErrorView>,
    id: Seq<u8>,
)
    requires
        !is_blank(message),
        0 < paths.len() <= usize::MAX,
    ensures
        ({
            let f = commit_start(message, paths, author_name, author_email);
            let n = paths.len();
            let opened = seq![CommitReplyView::Opened(Ok(()))];
            let checked = opened + clear_replies(n);
            let written = checked + staged_replies(n) + seq![
                CommitReplyView::Written(Ok(())),
                CommitReplyView::HeadRead(head),
            ];
            let all = written + seq![CommitReplyView::Committed(Ok(id))];
            &&& forall|k: nat| k < n ==> #[trigger] commit_action(
                commit_after(f, checked + staged_replies(k)),
            ) == CommitActionView::Stage(paths[k as int])
            &&& commit_action(commit_after(f, written)) == (CommitActionView::Commit {
                message,
                author_name,
                author_email,
                parent: parent_of(head),
            })
            &&& commit_after(f, all).result == Some(
                Ok::<CommitEntryView, Seq<char>>(new_entry(id, message)),
            )
            &&& new_entry(id, message).hash == hex_lower(id).subrange(0, 7)
        }),
{
    let f = commit_start(message, paths, author_name, author_email);
    let n = paths.len();
    let opened = seq![CommitReplyView::Opened(Ok(()))];
    let checked = opened + clear_replies(n);
    lemma_after_one(f, CommitReplyView::Opened(Ok(())));
    let g = commit_after(f, opened);
    assert(g == at(f, CommitStage::Checking(0)));
    lemma_after_split(f, opened, clear_replies(n));
    lemma_checks_pass(g, 0);
    let h = commit_after(f, checked);
    assert(h == at(f, CommitStage::Staging(0)));
    lemma_stages_pass(h, 0);
    assert forall|k: nat| k < n implies #[trigger] commit_action(
        commit_after(f, checked + staged_replies(k)),
    ) == CommitActionView::Stage(paths[k as int]) by {
        lemma_after_split(f, checked, staged_replies(k));
        assert(commit_after(h, staged_replies(k)) == at(h, CommitStage::Staging((0 + k) as usize)));
    }
    let w = commit_after(f, checked + staged_replies(n));
    lemma_after_split(f, checked, staged_replies(n));
    assert(w == at(f, CommitStage::Writing));
    let mid = seq![CommitReplyView::Written(Ok(())), CommitReplyView::HeadRead(head)];
    lemma_after_split(f, checked + staged_replies(n), mid);
    assert(mid.drop_last() =~= seq![CommitReplyView::Written(Ok(()))]);
    lemma_after_one(w, CommitReplyView::Written(Ok(())));
    let c = commit_after(w, mid);
    assert(c == commit_next(commit_next(w, CommitReplyView::Written(Ok(()))), CommitReplyView::HeadRead(head)));
    let written = checked + staged_replies(n) + mid;
    assert(commit_after(f, written) == c);
    lemma_after_split(f, written, seq![CommitReplyView::Committed(Ok(id))]);
    lemma_after_one(c, CommitReplyView::Committed(Ok(id)));
}

/// What a commit asks for, or reports, after each reply to the action it
/// asked for, spelled out with its texts: opening with no paths is
/// refused; each path is checked against the ignore rules in order (a
/// failed check lets it through) and an ignored one refuses the commit;
/// each path is then staged in order, and any failure to stage (a lock or
/// anything else) ends the commit with "Failed to stage PATH: ..."; the
/// index is written, and any failure to write it ends the commit; HEAD is
/// read, and its commit becomes the one parent (none when it has none or
/// reading it failed); the commit is made by the author given at the
/// start, and reports the first seven hex digits of its id, its message
/// and "just now". Every other failure ends it with git2's text. Once a
/// commit has ended it asks for nothing more, whatever follows.
pub proof fn law_commit_replies(f: CommitFlowView, r: CommitReplyView, rs: Seq<CommitReplyView>)
    requires
        commit_wf(f),
        f.paths.len() <= usize::MAX,
    ensures
        ({
            let n = f.paths.len();
            let g = commit_next(f, r);
            let a = commit_action(g);
            &&& f.stage == CommitStage::Opening ==> (r == CommitReplyView::Opened(Ok(())) ==> (
            if n == 0 {
                a == CommitActionView::Finish(Err("No files staged for commit"@))
            } else {
                a == CommitActionView::CheckIgnored(f.paths[0])
            }))
            &&& f.stage == CommitStage::Opening ==> (r matches CommitReplyView::Opened(Err(e))
                ==> a == CommitActionView::Finish(Err(e.text)))
            &&& f.stage matches CommitStage::Checking(i) ==> (r == CommitReplyView::IgnoreChecked(
                Ok(true),
            ) ==> a == CommitActionView::Finish(
                Err("'"@ + f.paths[i as int] + "' is excluded by .gitignore and cannot be committed"@),
            ))
            &&& f.stage matches CommitStage::Checking(i) ==> (r matches CommitReplyView::IgnoreChecked(
                res,
            ) ==> (res != Ok::<bool, GitErrorView>(true) ==> if i + 1 < n {
                a == CommitActionView::CheckIgnored(f.paths[i + 1])
            } else {
                a == CommitActionView::Stage(f.paths[0])
            }))
            &&& f.stage matches CommitStage::Staging(i) ==> (r == CommitReplyView::Staged(Ok(()))
                ==> if i + 1 < n {
                a == CommitActionView::Stage(f.paths[i + 1])
            } else {
                a == CommitActionView::WriteIndex
            })
            &&& f.stage matches CommitStage::Staging(i) ==> (r matches CommitReplyView::Staged(Err(e))
                ==> a == CommitActionView::Finish(
                Err(
                    "Failed to stage "@ + f.paths[i as int] + ": "@ + if e.class == ErrClass::Os
                        && e.code == ErrCode::GenericError {
                        "'"@ + f.paths[i as int]
                            + "' is locked by another program — close it and try again"@
                    } else {
                        e.text
                    },
                ),
            ))
            &&& f.stage == CommitStage::Writing ==> (r == CommitReplyView::Written(Ok(())) ==> a
                == CommitActionView::ReadParent)
            &&& f.stage == CommitStage::Writing ==> (r matches CommitReplyView::Written(Err(e)) ==> a
                == CommitActionView::Finish(
                Err(
                    if e.class == ErrClass::Os && e.code == ErrCode::GenericError {
                        "'"@ + join(f.paths, ", "@)
                            + "' is locked by another program — close it and try again"@
                    } else {
                        e.text
                    },
                ),
            ))
            &&& f.stage == CommitStage::ReadingParent ==> (r matches CommitReplyView::HeadRead(res)
                ==> a == (CommitActionView::Commit {
                message: f.message,
                author_name: f.author_name,
                author_email: f.author_email,
                parent: match res {
                    Ok(Some(id)) => Some(id),
                    _ => None,
                },
            }))
            &&& f.stage == CommitStage::Committing ==> (r matches CommitReplyView::Committed(Ok(id))
                ==> a == CommitActionView::Finish(
                Ok(
                    CommitEntryView {
                        hash: hex_lower(id).subrange(0, 7),
                        message: f.message,
                        time_ago: "just now"@,
                    },
                ),
            ))
            &&& f.stage == CommitStage::Committing ==> (r matches CommitReplyView::Committed(Err(e))
                ==> a == CommitActionView::Finish(Err(e.text)))
            &&& a is Finish ==> commit_action(commit_after(g, rs)) == a
        }),
{
    reveal_strlit("No files staged for commit");
    let g = commit_next(f, r);
    lemma_next_keeps_wf(f, r);
    if g.stage == CommitStage::Finished {
        law_finished_is_final(g, rs);
    }
    match f.stage {
        CommitStage::Opening => {},
        CommitStage::Checking(i) => {},
        CommitStage::Staging(i) => {},
        CommitStage::Writing => {},
        CommitStage::ReadingParent => {},
        CommitStage::Committing => {},
        CommitStage::Finished => {},
    }
}

/// A commit starts by opening the repository and its index, unless its
/// message is blank (only white space), when it is refused at once with
/// "Commit message cannot be empty"; it starts with no parent chosen.
pub proof fn law_commit_start(
    message: Seq<char>,
    paths: Seq<Seq<char>>,
    author_name: Seq<char>,
    author_email: Seq<char>,
)
    ensures
        ({
            let f = commit_start(message, paths, author_name, author_email);
            &&& f.message == message && f.paths == paths && f.author_name == author_name
                && f.author_email == author_email
            &&& commit_action(f) == if is_blank(message) {
                CommitActionView::Finish(Err("Commit message cannot be empty"@))
            } else {
                CommitActionView::OpenIndex
            }
        }),
{
}

fn clone_result(r: &Result<CommitEntry, String>) -> (c: Result<CommitEntry, String>)
    ensures
        entry_result_view(c) == entry_result_view(*r),
{
    match r {
        Ok(e) => Ok(e.clone()),
        Err(s) => Err(s.clone()),
    }
}

impl CommitFlow {
    pub closed spec fn wf(&self) -> bool {
        commit_wf(self@)
    }

    /// Starts a commit of `message` for `paths`, by the author with this
    /// name and email.
    pub fn start(author_name: String, author_email: String, message: String, paths: Vec<String>) -> (r: (
        CommitFlow,
        CommitAction,
    ))
        ensures
            r.0.wf(),
            r.0@ == commit_start(message@, views(paths@), author_name@, author_email@),
            r.1@ == commit_action(r.0@),
    {
        let refused = blank(message.as_str());
        let mut flow = CommitFlow {
            message,
            paths,
            author_name,
            author_email,
            parent: None,
            stage: CommitStage::Opening,
            result: None,
        };
        if refused {
            flow.finish(Err(String::from_str("Commit message cannot be empty")));
        }
        let a = flow.action();
        (flow, a)
    }

    fn finish(&mut self, r: Result<CommitEntry, String>)
        ensures
            final(self)@ == finished(old(self)@, entry_result_view(r)),
    {
        self.stage = CommitStage::Finished;
        self.result = Some(r);
    }

    /// The action pending.
    pub fn action(&self) -> (a: CommitAction)
        requires
            self.wf(),
        ensures
            a@ == commit_action(self@),
    {
        match self.stage {
            CommitStage::Opening => CommitAction::OpenIndex,
            CommitStage::Checking(i) => CommitAction::CheckIgnored(self.paths[i].clone()),
            CommitStage::Staging(i) => CommitAction::Stage(self.paths[i].clone()),
            CommitStage::Writing => CommitAction::WriteIndex,
            CommitStage::ReadingParent => CommitAction::ReadParent,
            CommitStage::Committing => CommitAction::Commit {
                message: self.message.clone(),
                author_name: self.author_name.clone(),
                author_email: self.author_email.clone(),
                parent: self.parent,
            },
            CommitStage::Finished => {
                let r = self.result.as_ref().unwrap();
                CommitAction::Finish(clone_result(r))
            },
        }
    }

    /// Takes the caller's reply to the pending action and gives the next.
    pub fn step(&mut self, reply: CommitReply) -> (a: CommitAction)
        requires
            old(self).wf(),
        ensures
            final(self).wf(),
            final(self)@ == commit_next(old(self)@, reply@),
            a@ == commit_action(final(self)@),
    {
        let n = self.paths.len();
        match self.stage {
            CommitStage::Opening => match reply {
                CommitReply::Opened(Ok(())) => {
                    if n == 0 {
                        self.finish(Err(String::from_str("No files staged for commit")));
                    } else {
                        self.stage = CommitStage::Checking(0);
                    }
                },
                CommitReply::Opened(Err(e)) => {
                    self.finish(Err(e.text()));
                },
                _ => {},
            },
            CommitStage::Checking(i) => match reply {
                CommitReply::IgnoreChecked(res) => {
                    let ignored = match res {
                        Ok(b) => b,
                        Err(_) => false,
                    };
                    if ignored {
                        let mut s = String::from_str("'");
                        s.append(self.paths[i].as_str());
                        s.append("' is excluded by .gitignore and cannot be committed");
                        self.finish(Err(s));
                    } else if i + 1 < n {
                        self.stage = CommitStage::Checking(i + 1);
                    } else {
                        self.stage = CommitStage::Staging(0);
                    }
                },
                _ => {},
            },
            CommitStage::Staging(i) => match reply {
                CommitReply::Staged(Ok(())) => {
                    if i + 1 < n {
                        self.stage = CommitStage::Staging(i + 1);
                    } else {
                        self.stage = CommitStage::Writing;
                    }
                },
                CommitReply::Staged(Err(e)) => {
                    let mut s = String::from_str("Failed to stage ");
                    s.append(self.paths[i].as_str());
                    s.append(": ");
                    s.append(describe_lock_error(self.paths[i].as_str(), &e).as_str());
                    self.finish(Err(s));
                },
                _ => {},
            },
            CommitStage::Writing => match reply {
                CommitReply::Written(Ok(())) => {
                    self.stage = CommitStage::ReadingParent;
                },
                CommitReply::Written(Err(e)) => {
                    let joined = join_text(&self.paths, ", ");
                    self.finish(Err(describe_lock_error(joined.as_str(), &e)));
                },
                _ => {},
            },
            CommitStage::ReadingParent => match reply {
                CommitReply::HeadRead(res) => {
                    self.parent = match res {
                        Ok(Some(id)) => Some(id),
                        _ => None,
                    };
                    self.stage = CommitStage::Committing;
                },
                _ => {},
            },
            CommitStage::Committing => match reply {
                CommitReply::Committed(Ok(id)) => {
                    let entry = CommitEntry {
                        hash: short_hash(id.as_slice()),
                        message: self.message.clone(),
                        time_ago: String::from_str("just now"),
                    };
                    self.finish(Ok(entry));
                },
                CommitReply::Committed(Err(e)) => {
                    self.finish(Err(e.text()));
                },
                _ => {},
            },
            CommitStage::Finished => {},
        }
        self.action()
    }
}

} // verus!
