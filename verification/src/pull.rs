//! Pulling: fetch the current branch from "origin", then fast-forward the
//! local branch to it. Only fast-forwards: when local and remote history
//! have diverged, the pull is refused rather than merged.

use vstd::prelude::*;
use vstd::string::*;
use crate::errors::{
    describe_lock_error, error_text, lock_description, network_failure, network_failure_text,
    result_view, ErrClass, ErrCode, GitError, GitErrorView,
};
use crate::git::{has_flag, is_fast_forward, is_up_to_date, ANALYSIS_FASTFORWARD, ANALYSIS_UP_TO_DATE};
use crate::remote::{no_origin_text, no_pat_text, refuse_blank_pat};
use crate::text::is_blank;

verus! {

/// Where a pull stands.
#[derive(PartialEq, Eq, Structural, Clone, Copy, Debug)]
pub enum PullStage {
    Opening,
    FindingOrigin,
    ReadingHead,
    Fetching,
    FindingRemoteBranch,
    Analyzing,
    FastForwarding,
    CheckingOut,
    Finished,
}

/// What the caller is to do next.
pub enum PullAction {
    /// Open the repository.
    OpenRepository,
    /// Look up the remote called "origin".
    FindOrigin,
    /// Read HEAD and its short name.
    ReadHead,
    /// Fetch this branch from origin, with the token's credentials.
    Fetch(String),
    /// Look up this reference (the remote-tracking branch).
    FindReference(String),
    /// Analyse merging the remote-tracking branch into HEAD.
    Analyze,
    /// Point this local reference at the commit with id `target` (the
    /// fetched commit), with this reflog message, and make it HEAD.
    FastForward { reference: String, target: [u8; 20], reflog: String },
    /// Check out HEAD by force (trying again while files are locked).
    Checkout,
    /// Report this result.
    Finish(Result<String, String>),
}

pub enum PullActionView {
    OpenRepository,
    FindOrigin,
    ReadHead,
    Fetch(Seq<char>),
    FindReference(Seq<char>),
    Analyze,
    FastForward { reference: Seq<char>, target: Seq<u8>, reflog: Seq<char> },
    Checkout,
    Finish(Result<Seq<char>, Seq<char>>),
}

pub open spec fn text_result_view(r: Result<String, String>) -> Result<Seq<char>, Seq<char>> {
    match r {
        Ok(s) => Ok(s@),
        Err(s) => Err(s@),
    }
}

impl View for PullAction {
    type V = PullActionView;

    open spec fn view(&self) -> PullActionView {
        match self {
            PullAction::OpenRepository => PullActionView::OpenRepository,
            PullAction::FindOrigin => PullActionView::FindOrigin,
            PullAction::ReadHead => PullActionView::ReadHead,
            PullAction::Fetch(b) => PullActionView::Fetch(b@),
            PullAction::FindReference(n) => PullActionView::FindReference(n@),
            PullAction::Analyze => PullActionView::Analyze,
            PullAction::FastForward { reference, target, reflog } => PullActionView::FastForward {
                reference: reference@,
                target: target@,
                reflog: reflog@,
            },
            PullAction::Checkout => PullActionView::Checkout,
            PullAction::Finish(r) => PullActionView::Finish(text_result_view(*r)),
        }
    }
}

/// How the caller's work went.
pub enum PullReply {
    Opened(Result<(), GitError>),
    /// Whether origin was found (the failure itself is not reported).
    OriginFound(Result<(), GitError>),
    /// HEAD's short name, absent when it is not valid UTF-8.
    Head(Result<Option<String>, GitError>),
    Fetched(Result<(), GitError>),
    ReferenceFound(Result<(), GitError>),
    /// The merge analysis bits, and the id of the fetched commit that the
    /// remote-tracking branch points at.
    Analyzed(Result<(u32, [u8; 20]), GitError>),
    FastForwarded(Result<(), GitError>),
    CheckedOut(Result<(), GitError>),
}

pub enum PullReplyView {
    Opened(Result<(), GitErrorView>),
    OriginFound(Result<(), GitErrorView>),
    Head(Result<Option<Seq<char>>, GitErrorView>),
    Fetched(Result<(), GitErrorView>),
    ReferenceFound(Result<(), GitErrorView>),
    Analyzed(Result<(u32, Seq<u8>), GitErrorView>),
    FastForwarded(Result<(), GitErrorView>),
    CheckedOut(Result<(), GitErrorView>),
}

impl View for PullReply {
    type V = PullReplyView;

    open spec fn view(&self) -> PullReplyView {
        match self {
            PullReply::Opened(r) => PullReplyView::Opened(result_view(*r)),
            PullReply::OriginFound(r) => PullReplyView::OriginFound(result_view(*r)),
            PullReply::Head(r) => PullReplyView::Head(
                match r {
                    Ok(Some(b)) => Ok(Some(b@)),
                    Ok(None) => Ok(None),
                    Err(e) => Err(e@),
                },
            ),
            PullReply::Fetched(r) => PullReplyView::Fetched(result_view(*r)),
            PullReply::ReferenceFound(r) => PullReplyView::ReferenceFound(result_view(*r)),
            PullReply::Analyzed(r) => PullReplyView::Analyzed(
                match r {
                    Ok((bits, id)) => Ok((*bits, id@)),
                    Err(e) => Err(e@),
                },
            ),
            PullReply::FastForwarded(r) => PullReplyView::FastForwarded(result_view(*r)),
            PullReply::CheckedOut(r) => PullReplyView::CheckedOut(result_view(*r)),
        }
    }
}

/// One pull under way.
pub struct PullFlow {
    stage: PullStage,
    branch: String,
    target: Option<[u8; 20]>,
    result: Option<Result<String, String>>,
}

pub struct PullFlowView {
    pub stage: PullStage,
    /// HEAD's branch, once read.
    pub branch: Seq<char>,
    /// The fetched commit to fast-forward to, once analysed.
    pub target: Option<Seq<u8>>,
    pub result: Option<Result<Seq<char>, Seq<char>>>,
}

impl View for PullFlow {
    type V = PullFlowView;

    closed spec fn view(&self) -> PullFlowView {
        PullFlowView {
            stage: self.stage,
            branch: self.branch@,
            target: match self.target {
                Some(t) => Some(t@),
                None => None,
            },
            result: match self.result {
                Some(r) => Some(text_result_view(r)),
                None => None,
            },
        }
    }
}

pub open spec fn invalid_head_text() -> Seq<char> {
    "HEAD is not a valid branch"@
}

pub open spec fn remote_branch_ref(b: Seq<char>) -> Seq<char> {
    "refs/remotes/origin/"@ + b
}

pub open spec fn local_branch_ref(b: Seq<char>) -> Seq<char> {
    "refs/heads/"@ + b
}

pub open spec fn pull_reflog() -> Seq<char> {
    "ghostgit: fast-forward pull"@
}

pub open spec fn missing_remote_branch_text(b: Seq<char>) -> Seq<char> {
    "Remote branch 'origin/"@ + b + "' does not exist"@
}

pub open spec fn up_to_date_text(b: Seq<char>) -> Seq<char> {
    "Already up to date with origin/"@ + b
}

pub open spec fn diverged_text() -> Seq<char> {
    "Local and remote branches have diverged — merge manually before pulling"@
}

pub open spec fn pulled_text(b: Seq<char>) -> Seq<char> {
    "Pulled — fast-forwarded "@ + b + " to origin"@
}

pub open spec fn pull_finished(f: PullFlowView, r: Result<Seq<char>, Seq<char>>) -> PullFlowView {
    PullFlowView { stage: PullStage::Finished, result: Some(r), ..f }
}

pub open spec fn pull_at(f: PullFlowView, stage: PullStage) -> PullFlowView {
    PullFlowView { stage, ..f }
}

/// A pull with the token `pat`: a blank token is refused at once.
pub open spec fn pull_start(pat: Seq<char>) -> PullFlowView {
    let f = PullFlowView {
        stage: PullStage::Opening,
        branch: Seq::empty(),
        target: None,
        result: None,
    };
    if is_blank(pat) {
        pull_finished(f, Err(no_pat_text("pull"@)))
    } else {
        f
    }
}

/// What a reply does to a pull; a reply that does not answer the pending
/// action changes nothing.
pub open spec fn pull_next(f: PullFlowView, r: PullReplyView) -> PullFlowView {
    match (f.stage, r) {
        (PullStage::Opening, PullReplyView::Opened(Ok(_))) => pull_at(f, PullStage::FindingOrigin),
        (PullStage::Opening, PullReplyView::Opened(Err(e))) => pull_finished(f, Err(error_text(e))),
        (PullStage::FindingOrigin, PullReplyView::OriginFound(Ok(_))) => pull_at(
            f,
            PullStage::ReadingHead,
        ),
        (PullStage::FindingOrigin, PullReplyView::OriginFound(Err(_))) => pull_finished(
            f,
            Err(no_origin_text()),
        ),
        (PullStage::ReadingHead, PullReplyView::Head(Ok(Some(b)))) => PullFlowView {
            stage: PullStage::Fetching,
            branch: b,
            ..f
        },
        (PullStage::ReadingHead, PullReplyView::Head(Ok(None))) => pull_finished(
            f,
            Err(invalid_head_text()),
        ),
        (PullStage::ReadingHead, PullReplyView::Head(Err(e))) => pull_finished(
            f,
            Err(error_text(e)),
        ),
        (PullStage::Fetching, PullReplyView::Fetched(Ok(_))) => pull_at(
            f,
            PullStage::FindingRemoteBranch,
        ),
        (PullStage::Fetching, PullReplyView::Fetched(Err(e))) => pull_finished(
            f,
            Err(network_failure("Fetch"@, e)),
        ),
        (PullStage::FindingRemoteBranch, PullReplyView::ReferenceFound(Ok(_))) => pull_at(
            f,
            PullStage::Analyzing,
        ),
        (PullStage::FindingRemoteBranch, PullReplyView::ReferenceFound(Err(_))) => pull_finished(
            f,
            Err(missing_remote_branch_text(f.branch)),
        ),
        (PullStage::Analyzing, PullReplyView::Analyzed(Ok((bits, id)))) => if has_flag(
            bits,
            ANALYSIS_UP_TO_DATE,
        ) {
            pull_finished(f, Ok(up_to_date_text(f.branch)))
        } else if !has_flag(bits, ANALYSIS_FASTFORWARD) {
            pull_finished(f, Err(diverged_text()))
        } else {
            PullFlowView { stage: PullStage::FastForwarding, target: Some(id), ..f }
        },
        (PullStage::Analyzing, PullReplyView::Analyzed(Err(e))) => pull_finished(
            f,
            Err(error_text(e)),
        ),
        (PullStage::FastForwarding, PullReplyView::FastForwarded(Ok(_))) => pull_at(
            f,
            PullStage::CheckingOut,
        ),
        (PullStage::FastForwarding, PullReplyView::FastForwarded(Err(e))) => pull_finished(
            f,
            Err(error_text(e)),
        ),
        (PullStage::CheckingOut, PullReplyView::CheckedOut(Ok(_))) => pull_finished(
            f,
            Ok(pulled_text(f.branch)),
        ),
        (PullStage::CheckingOut, PullReplyView::CheckedOut(Err(e))) => pull_finished(
            f,
            Err(lock_description(f.branch, e)),
        ),
        _ => f,
    }
}

/// The action a pull asks for in each stage.
pub open spec fn pull_action(f: PullFlowView) -> PullActionView {
    match f.stage {
        PullStage::Opening => PullActionView::OpenRepository,
        PullStage::FindingOrigin => PullActionView::FindOrigin,
        PullStage::ReadingHead => PullActionView::ReadHead,
        PullStage::Fetching => PullActionView::Fetch(f.branch),
        PullStage::FindingRemoteBranch => PullActionView::FindReference(
            remote_branch_ref(f.branch),
        ),
        PullStage::Analyzing => PullActionView::Analyze,
        PullStage::FastForwarding => PullActionView::FastForward {
            reference: local_branch_ref(f.branch),
            target: f.target.unwrap(),
            reflog: pull_reflog(),
        },
        PullStage::CheckingOut => PullActionView::Checkout,
        PullStage::Finished => PullActionView::Finish(f.result.unwrap()),
    }
}

pub open spec fn pull_wf(f: PullFlowView) -> bool {
    &&& (f.stage == PullStage::Finished <==> f.result is Some)
    &&& (f.stage == PullStage::FastForwarding ==> f.target is Some)
}

fn clone_text_result(r: &Result<String, String>) -> (c: Result<String, String>)
    ensures
        text_result_view(c) == text_result_view(*r),
{
    match r {
        Ok(s) => Ok(s.clone()),
        Err(s) => Err(s.clone()),
    }
}

impl PullFlow {
    pub closed spec fn wf(&self) -> bool {
        pull_wf(self@)
    }

    /// Starts a pull with the token `pat`.
    pub fn start(pat: &str) -> (r: (PullFlow, PullAction))
        ensures
            r.0.wf(),
            r.0@ == pull_start(pat@),
            r.1@ == pull_action(r.0@),
    {
        let mut flow = PullFlow {
            stage: PullStage::Opening,
            branch: String::new(),
            target: None,
            result: None,
        };
        match refuse_blank_pat(pat, "pull") {
            Some(t) => flow.finish(Err(t)),
            None => {},
        }
        let a = flow.action();
        (flow, a)
    }

    fn finish(&mut self, r: Result<String, String>)
        ensures
            final(self)@ == pull_finished(old(self)@, text_result_view(r)),
    {
        self.stage = PullStage::Finished;
        self.result = Some(r);
    }

    /// The action pending.
    pub fn action(&self) -> (a: PullAction)
        requires
            self.wf(),
        ensures
            a@ == pull_action(self@),
    {
        match self.stage {
            PullStage::Opening => PullAction::OpenRepository,
            PullStage::FindingOrigin => PullAction::FindOrigin,
            PullStage::ReadingHead => PullAction::ReadHead,
            PullStage::Fetching => PullAction::Fetch(self.branch.clone()),
            PullStage::FindingRemoteBranch => {
                let mut s = String::from_str("refs/remotes/origin/");
                s.append(self.branch.as_str());
                PullAction::FindReference(s)
            },
            PullStage::Analyzing => PullAction::Analyze,
            PullStage::FastForwarding => {
                let mut s = String::from_str("refs/heads/");
                s.append(self.branch.as_str());
                PullAction::FastForward {
                    reference: s,
                    target: self.target.unwrap(),
                    reflog: String::from_str("ghostgit: fast-forward pull"),
                }
            },
            PullStage::CheckingOut => PullAction::Checkout,
            PullStage::Finished => PullAction::Finish(
                clone_text_result(self.result.as_ref().unwrap()),
            ),
        }
    }

    /// Takes the caller's reply to the pending action and gives the next.
    pub fn step(&mut self, reply: PullReply) -> (a: PullAction)
        requires
            old(self).wf(),
        ensures
            final(self).wf(),
            final(self)@ == pull_next(old(self)@, reply@),
            a@ == pull_action(final(self)@),
    {
        match (self.stage, reply) {
            (PullStage::Opening, PullReply::Opened(Ok(()))) => {
                self.stage = PullStage::FindingOrigin;
            },
            (PullStage::Opening, PullReply::Opened(Err(e))) => {
                self.finish(Err(e.text()));
            },
            (PullStage::FindingOrigin, PullReply::OriginFound(Ok(()))) => {
                self.stage = PullStage::ReadingHead;
            },
            (PullStage::FindingOrigin, PullReply::OriginFound(Err(_))) => {
                self.finish(Err(String::from_str("No remote 'origin' configured")));
            },
            (PullStage::ReadingHead, PullReply::Head(Ok(Some(b)))) => {
                self.stage = PullStage::Fetching;
                self.branch = b;
            },
            (PullStage::ReadingHead, PullReply::Head(Ok(None))) => {
                self.finish(Err(String::from_str("HEAD is not a valid branch")));
            },
            (PullStage::ReadingHead, PullReply::Head(Err(e))) => {
                self.finish(Err(e.text()));
            },
            (PullStage::Fetching, PullReply::Fetched(Ok(()))) => {
                self.stage = PullStage::FindingRemoteBranch;
            },
            (PullStage::Fetching, PullReply::Fetched(Err(e))) => {
                self.finish(Err(network_failure_text("Fetch", &e)));
            },
            (PullStage::FindingRemoteBranch, PullReply::ReferenceFound(Ok(()))) => {
                self.stage = PullStage::Analyzing;
            },
            (PullStage::FindingRemoteBranch, PullReply::ReferenceFound(Err(_))) => {
                let mut s = String::from_str("Remote branch 'origin/");
                s.append(self.branch.as_str());
                s.append("' does not exist");
                self.finish(Err(s));
            },
            (PullStage::Analyzing, PullReply::Analyzed(Ok((bits, id)))) => {
                if is_up_to_date(bits) {
                    let mut s = String::from_str("Already up to date with origin/");
                    s.append(self.branch.as_str());
                    self.finish(Ok(s));
                } else if !is_fast_forward(bits) {
                    self.finish(
                        Err(
                            String::from_str(
                                "Local and remote branches have diverged — merge manually before pulling",
                            ),
                        ),
                    );
                } else {
                    self.stage = PullStage::FastForwarding;
                    self.target = Some(id);
                }
            },
            (PullStage::Analyzing, PullReply::Analyzed(Err(e))) => {
                self.finish(Err(e.text()));
            },
            (PullStage::FastForwarding, PullReply::FastForwarded(Ok(()))) => {
                self.stage = PullStage::CheckingOut;
            },
            (PullStage::FastForwarding, PullReply::FastForwarded(Err(e))) => {
                self.finish(Err(e.text()));
            },
            (PullStage::CheckingOut, PullReply::CheckedOut(Ok(()))) => {
                let mut s = String::from_str("Pulled — fast-forwarded ");
                s.append(self.branch.as_str());
                s.append(" to origin");
                self.finish(Ok(s));
            },
            (PullStage::CheckingOut, PullReply::CheckedOut(Err(e))) => {
                let t = describe_lock_error(self.branch.as_str(), &e);
                self.finish(Err(t));
            },
            _ => {},
        }
        self.action()
    }
}

/// The pull after the caller's replies `rs`, in order.
pub open spec fn pull_after(f: PullFlowView, rs: Seq<PullReplyView>) -> PullFlowView
    decreases rs.len(),
{
    if rs.len() == 0 {
        f
    } else {
        pull_next(pull_after(f, rs.drop_last()), rs.last())
    }
}

/// A finished pull stays finished with the same result.
pub proof fn law_pull_finished_is_final(f: PullFlowView, rs: Seq<PullReplyView>)
    requires
        f.stage == PullStage::Finished,
    ensures
        pull_after(f, rs) == f,
    decreases rs.len(),
{
    if rs.len() > 0 {
        law_pull_finished_is_final(f, rs.drop_last());
    }
}

/// A blank token is refused before the repository is opened, with a text
/// that names the token, whatever comes after.
pub proof fn law_pull_needs_token(pat: Seq<char>, rs: Seq<PullReplyView>)
    requires
        is_blank(pat),
    ensures
        pull_action(pull_start(pat)) == PullActionView::Finish(Err(no_pat_text("pull"@))),
        pull_after(pull_start(pat), rs) == pull_start(pat),
{
    law_pull_finished_is_final(pull_start(pat), rs);
}

/// A pull only ever fast-forwards: the local branch is moved only right
/// after an analysis that found a fast-forward and not "up to date", and
/// the working tree is checked out only after that move succeeded.
pub proof fn law_pull_only_fast_forwards(f: PullFlowView, r: PullReplyView)
    ensures
        pull_next(f, r).stage == PullStage::FastForwarding ==> f.stage
            == PullStage::FastForwarding || (f.stage == PullStage::Analyzing && (r matches PullReplyView::Analyzed(Ok((bits, _))) && has_flag(bits, ANALYSIS_FASTFORWARD) && !has_flag(bits, ANALYSIS_UP_TO_DATE))),
        pull_next(f, r).stage == PullStage::CheckingOut ==> f.stage == PullStage::CheckingOut
            || (f.stage == PullStage::FastForwarding && r is FastForwarded && (r->FastForwarded_0 is Ok)),
{
}

/// Diverged history is refused and nothing is moved: an analysis that is
/// neither "up to date" nor a fast-forward ends the pull with the
/// "diverged" refusal.
pub proof fn law_pull_refuses_diverged(f: PullFlowView, bits: u32, id: Seq<u8>)
    requires
        f.stage == PullStage::Analyzing,
        !has_flag(bits, ANALYSIS_UP_TO_DATE),
        !has_flag(bits, ANALYSIS_FASTFORWARD),
    ensures
        pull_next(f, PullReplyView::Analyzed(Ok((bits, id)))).stage == PullStage::Finished,
        pull_next(f, PullReplyView::Analyzed(Ok((bits, id)))).result == Some(
            Err::<Seq<char>, Seq<char>>(diverged_text()),
        ),
{
}

/// A branch already up to date ends the pull successfully with a text
/// saying so, and nothing is moved.
pub proof fn law_pull_up_to_date(f: PullFlowView, bits: u32, id: Seq<u8>)
    requires
        f.stage == PullStage::Analyzing,
        has_flag(bits, ANALYSIS_UP_TO_DATE),
    ensures
        pull_next(f, PullReplyView::Analyzed(Ok((bits, id)))).result == Some(
            Ok::<Seq<char>, Seq<char>>(up_to_date_text(f.branch)),
        ),
{
}

/// A fast-forward moves the local branch of HEAD to exactly the fetched
/// commit that the analysis was made for.
pub proof fn law_pull_moves_branch_to_fetched_commit(f: PullFlowView, bits: u32, id: Seq<u8>)
    requires
        f.stage == PullStage::Analyzing,
        !has_flag(bits, ANALYSIS_UP_TO_DATE),
        has_flag(bits, ANALYSIS_FASTFORWARD),
    ensures
        pull_action(pull_next(f, PullReplyView::Analyzed(Ok((bits, id)))))
            == (PullActionView::FastForward {
            reference: local_branch_ref(f.branch),
            target: id,
            reflog: pull_reflog(),
        }),
{
}

/// What a pull asks for, or reports, after each reply to the action it
/// asked for, spelled out with its texts: origin is looked up, HEAD's
/// branch read and fetched from origin, `refs/remotes/origin/<branch>`
/// looked up and analysed; an analysis that is "up to date" ends the pull
/// with success and moves nothing, one that is not a fast-forward ends it
/// refused as diverged, and a fast-forward moves `refs/heads/<branch>` to
/// exactly the fetched commit; only a successful move leads to the
/// checkout, and only a successful checkout ends the pull with success.
/// Every failure ends it: a missing origin or remote branch with its own
/// text, a failed fetch with "Fetch failed (CLASS): MESSAGE", a failed
/// checkout with the lock text for a lock and git2's text otherwise, and
/// the rest with git2's text. Once a pull has ended it asks for nothing
/// more, whatever follows.
pub proof fn law_pull_replies(f: PullFlowView, r: PullReplyView, rs: Seq<PullReplyView>)
    requires
        pull_wf(f),
    ensures
        ({
            let g = pull_next(f, r);
            let a = pull_action(g);
            let b = f.branch;
            &&& f.stage == PullStage::Opening ==> (r matches PullReplyView::Opened(res) ==> a == match res {
                Ok(_) => PullActionView::FindOrigin,
                Err(e) => PullActionView::Finish(Err(e.text)),
            })
            &&& f.stage == PullStage::FindingOrigin ==> (r matches PullReplyView::OriginFound(res)
                ==> a == match res {
                Ok(_) => PullActionView::ReadHead,
                Err(_) => PullActionView::Finish(Err("No remote 'origin' configured"@)),
            })
            &&& f.stage == PullStage::ReadingHead ==> (r matches PullReplyView::Head(res) ==> a
                == match res {
                Ok(Some(name)) => PullActionView::Fetch(name),
                Ok(None) => PullActionView::Finish(Err("HEAD is not a valid branch"@)),
                Err(e) => PullActionView::Finish(Err(e.text)),
            })
            &&& f.stage == PullStage::Fetching ==> (r matches PullReplyView::Fetched(res) ==> a
                == match res {
                Ok(_) => PullActionView::FindReference("refs/remotes/origin/"@ + b),
                Err(e) => PullActionView::Finish(
                    Err("Fetch"@ + " failed ("@ + e.class_name + "): "@ + e.message),
                ),
            })
            &&& f.stage == PullStage::FindingRemoteBranch ==> (r matches PullReplyView::ReferenceFound(
                res,
            ) ==> a == match res {
                Ok(_) => PullActionView::Analyze,
                Err(_) => PullActionView::Finish(
                    Err("Remote branch 'origin/"@ + b + "' does not exist"@),
                ),
            })
            &&& f.stage == PullStage::Analyzing ==> (r matches PullReplyView::Analyzed(res) ==> a
                == match res {
                Ok((bits, id)) => if bits & 2 != 0 {
                    PullActionView::Finish(Ok("Already up to date with origin/"@ + b))
                } else if bits & 4 == 0 {
                    PullActionView::Finish(
                        Err(
                            "Local and remote branches have diverged — merge manually before pulling"@,
                        ),
                    )
                } else {
                    PullActionView::FastForward {
                        reference: "refs/heads/"@ + b,
                        target: id,
                        reflog: "ghostgit: fast-forward pull"@,
                    }
                },
                Err(e) => PullActionView::Finish(Err(e.text)),
            })
            &&& f.stage == PullStage::FastForwarding ==> (r matches PullReplyView::FastForwarded(res)
                ==> a == match res {
                Ok(_) => PullActionView::Checkout,
                Err(e) => PullActionView::Finish(Err(e.text)),
            })
            &&& f.stage == PullStage::CheckingOut ==> (r matches PullReplyView::CheckedOut(res) ==> a
                == match res {
                Ok(_) => PullActionView::Finish(Ok("Pulled — fast-forwarded "@ + b + " to origin"@)),
                Err(e) => PullActionView::Finish(
                    Err(
                        if e.class == ErrClass::Os && e.code == ErrCode::GenericError {
                            "'"@ + b + "' is locked by another program — close it and try again"@
                        } else {
                            e.text
                        },
                    ),
                ),
            })
            &&& a is Finish ==> pull_action(pull_after(g, rs)) == a
        }),
{
    let g = pull_next(f, r);
    if g.stage == PullStage::Finished {
        law_pull_finished_is_final(g, rs);
    }
}

/// A pull starts by opening the repository, unless its token is blank,
/// when it is refused at once with "No PAT available for pull".
pub proof fn law_pull_start(pat: Seq<char>)
    ensures
        pull_action(pull_start(pat)) == if is_blank(pat) {
            PullActionView::Finish(Err("No PAT available for "@ + "pull"@))
        } else {
            PullActionView::OpenRepository
        },
{
}

} // verus!
