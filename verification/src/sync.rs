//! Pushing the current branch to "origin", fetching from it, and cloning
//! a repository, all over HTTPS with the session's token.

use vstd::prelude::*;
use vstd::string::*;
use crate::errors::{error_text, network_failure, network_failure_text, result_view, GitError, GitErrorView};
use crate::pull::text_result_view;
use crate::remote::{no_origin_text, no_pat_text, refuse_blank_pat};
use crate::text::{blank, is_blank};

verus! {

/// Which way a transfer goes.
#[derive(PartialEq, Eq, Structural, Clone, Copy, Debug)]
pub enum SyncKind {
    /// Push the current branch to origin.
    Push,
    /// Fetch from origin; only remote-tracking references change, never
    /// the working tree.
    Fetch,
}

/// Where a push or fetch stands.
#[derive(PartialEq, Eq, Structural, Clone, Copy, Debug)]
pub enum SyncStage {
    Opening,
    FindingOrigin,
    ReadingHead,
    Transferring,
    Finished,
}

/// What the caller is to do next.
pub enum SyncAction {
    OpenRepository,
    FindOrigin,
    /// Read HEAD and its short name.
    ReadHead,
    /// Push this refspec to origin with the token's credentials.
    Push(String),
    /// Fetch origin's configured refspecs with the token's credentials.
    Fetch,
    Finish(Result<String, String>),
}

pub enum SyncActionView {
    OpenRepository,
    FindOrigin,
    ReadHead,
    Push(Seq<char>),
    Fetch,
    Finish(Result<Seq<char>, Seq<char>>),
}

impl View for SyncAction {
    type V = SyncActionView;

    open spec fn view(&self) -> SyncActionView {
        match self {
            SyncAction::OpenRepository => SyncActionView::OpenRepository,
            SyncAction::FindOrigin => SyncActionView::FindOrigin,
            SyncAction::ReadHead => SyncActionView::ReadHead,
            SyncAction::Push(s) => SyncActionView::Push(s@),
            SyncAction::Fetch => SyncActionView::Fetch,
            SyncAction::Finish(r) => SyncActionView::Finish(text_result_view(*r)),
        }
    }
}

/// How the caller's work went.
pub enum SyncReply {
    Opened(Result<(), GitError>),
    OriginFound(Result<(), GitError>),
    /// HEAD's short name, absent when it is not valid UTF-8.
    Head(Result<Option<String>, GitError>),
    Transferred(Result<(), GitError>),
}

pub enum SyncReplyView {
    Opened(Result<(), GitErrorView>),
    OriginFound(Result<(), GitErrorView>),
    Head(Result<Option<Seq<char>>, GitErrorView>),
    Transferred(Result<(), GitErrorView>),
}

impl View for SyncReply {
    type V = SyncReplyView;

    open spec fn view(&self) -> SyncReplyView {
        match self {
            SyncReply::Opened(r) => SyncReplyView::Opened(result_view(*r)),
            SyncReply::OriginFound(r) => SyncReplyView::OriginFound(result_view(*r)),
            SyncReply::Head(r) => SyncReplyView::Head(
                match r {
                    Ok(Some(b)) => Ok(Some(b@)),
                    Ok(None) => Ok(None),
                    Err(e) => Err(e@),
                },
            ),
            SyncReply::Transferred(r) => SyncReplyView::Transferred(result_view(*r)),
        }
    }
}

/// One push or fetch under way.
pub struct SyncFlow {
    kind: SyncKind,
    stage: SyncStage,
    branch: String,
    result: Option<Result<String, String>>,
}

pub struct SyncFlowView {
    pub kind: SyncKind,
    pub stage: SyncStage,
    pub branch: Seq<char>,
    pub result: Option<Result<Seq<char>, Seq<char>>>,
}

impl View for SyncFlow {
    type V = SyncFlowView;

    closed spec fn view(&self) -> SyncFlowView {
        SyncFlowView {
            kind: self.kind,
            stage: self.stage,
            branch: self.branch@,
            result: match self.result {
                Some(r) => Some(text_result_view(r)),
                None => None,
            },
        }
    }
}

pub open spec fn op_name(kind: SyncKind) -> Seq<char> {
    match kind {
        SyncKind::Push => "push"@,
        SyncKind::Fetch => "fetch"@,
    }
}

pub open spec fn op_title(kind: SyncKind) -> Seq<char> {
    match kind {
        SyncKind::Push => "Push"@,
        SyncKind::Fetch => "Fetch"@,
    }
}

/// The branch pushed when HEAD has no readable short name.
pub open spec fn fallback_branch() -> Seq<char> {
    "main"@
}

/// The refspec that pushes branch `b` to the branch of the same name.
pub open spec fn push_refspec(b: Seq<char>) -> Seq<char> {
    "refs/heads/"@ + b + ":refs/heads/"@ + b
}

/// What a finished transfer reports.
pub open spec fn sync_done_text(kind: SyncKind, b: Seq<char>) -> Seq<char> {
    match kind {
        SyncKind::Push => "Pushed "@ + b + " to origin"@,
        SyncKind::Fetch => "Fetched from origin"@,
    }
}

pub open spec fn sync_finished(f: SyncFlowView, r: Result<Seq<char>, Seq<char>>) -> SyncFlowView {
    SyncFlowView { stage: SyncStage::Finished, result: Some(r), ..f }
}

pub open spec fn sync_at(f: SyncFlowView, stage: SyncStage) -> SyncFlowView {
    SyncFlowView { stage, ..f }
}

/// A transfer with the token `pat`: a blank token is refused at once.
pub open spec fn sync_start(kind: SyncKind, pat: Seq<char>) -> SyncFlowView {
    let f = SyncFlowView { kind, stage: SyncStage::Opening, branch: Seq::empty(), result: None };
    if is_blank(pat) {
        sync_finished(f, Err(no_pat_text(op_name(kind))))
    } else {
        f
    }
}

/// What a reply does to a transfer; a push reads HEAD before pushing, a
/// fetch does not. A reply that does not answer the pending action
/// changes nothing.
pub open spec fn sync_next(f: SyncFlowView, r: SyncReplyView) -> SyncFlowView {
    match (f.stage, r) {
        (SyncStage::Opening, SyncReplyView::Opened(Ok(_))) => sync_at(f, SyncStage::FindingOrigin),
        (SyncStage::Opening, SyncReplyView::Opened(Err(e))) => sync_finished(f, Err(error_text(e))),
        (SyncStage::FindingOrigin, SyncReplyView::OriginFound(Ok(_))) => sync_at(
            f,
            if f.kind == SyncKind::Push {
                SyncStage::ReadingHead
            } else {
                SyncStage::Transferring
            },
        ),
        (SyncStage::FindingOrigin, SyncReplyView::OriginFound(Err(_))) => sync_finished(
            f,
            Err(no_origin_text()),
        ),
        (SyncStage::ReadingHead, SyncReplyView::Head(Ok(name))) => SyncFlowView {
            stage: SyncStage::Transferring,
            branch: match name {
                Some(b) => b,
                None => fallback_branch(),
            },
            ..f
        },
        (SyncStage::ReadingHead, SyncReplyView::Head(Err(e))) => sync_finished(
            f,
            Err(error_text(e)),
        ),
        (SyncStage::Transferring, SyncReplyView::Transferred(Ok(_))) => sync_finished(
            f,
            Ok(sync_done_text(f.kind, f.branch)),
        ),
        (SyncStage::Transferring, SyncReplyView::Transferred(Err(e))) => sync_finished(
            f,
            Err(network_failure(op_title(f.kind), e)),
        ),
        _ => f,
    }
}

/// The action a transfer asks for in each stage.
pub open spec fn sync_action(f: SyncFlowView) -> SyncActionView {
    match f.stage {
        SyncStage::Opening => SyncActionView::OpenRepository,
        SyncStage::FindingOrigin => SyncActionView::FindOrigin,
        SyncStage::ReadingHead => SyncActionView::ReadHead,
        SyncStage::Transferring => match f.kind {
            SyncKind::Push => SyncActionView::Push(push_refspec(f.branch)),
            SyncKind::Fetch => SyncActionView::Fetch,
        },
        SyncStage::Finished => SyncActionView::Finish(f.result.unwrap()),
    }
}

pub open spec fn sync_wf(f: SyncFlowView) -> bool {
    f.stage == SyncStage::Finished <==> f.result is Some
}

fn clone_text_result(r: &Result<String, String>) -> (c: Result<String, String>)
    ensures
        text_result_view(c) == text_result_view(*r),
{
    match r {
        Ok(s) => Ok(s.clone()),
        Err(s) => Err(s.clone()),
    }
}

impl SyncFlow {
    pub closed spec fn wf(&self) -> bool {
        sync_wf(self@)
    }

    /// Starts a transfer of `kind` with the token `pat`.
    pub fn start(kind: SyncKind, pat: &str) -> (r: (SyncFlow, SyncAction))
        ensures
            r.0.wf(),
            r.0@ == sync_start(kind, pat@),
            r.1@ == sync_action(r.0@),
    {
        let mut flow = SyncFlow {
            kind,
            stage: SyncStage::Opening,
            branch: String::new(),
            result: None,
        };
        let op = match kind {
            SyncKind::Push => "push",
            SyncKind::Fetch => "fetch",
        };
        match refuse_blank_pat(pat, op) {
            Some(t) => flow.finish(Err(t)),
            None => {},
        }
        let a = flow.action();
        (flow, a)
    }

    fn finish(&mut self, r: Result<String, String>)
        ensures
            final(self)@ == sync_finished(old(self)@, text_result_view(r)),
    {
        self.stage = SyncStage::Finished;
        self.result = Some(r);
    }

    /// The action pending.
    pub fn action(&self) -> (a: SyncAction)
        requires
            self.wf(),
        ensures
            a@ == sync_action(self@),
    {
        match self.stage {
            SyncStage::Opening => SyncAction::OpenRepository,
            SyncStage::FindingOrigin => SyncAction::FindOrigin,
            SyncStage::ReadingHead => SyncAction::ReadHead,
            SyncStage::Transferring => match self.kind {
                SyncKind::Push => {
                    let mut s = String::from_str("refs/heads/");
                    s.append(self.branch.as_str());
                    s.append(":refs/heads/");
                    s.append(self.branch.as_str());
                    SyncAction::Push(s)
                },
                SyncKind::Fetch => SyncAction::Fetch,
            },
            SyncStage::Finished => SyncAction::Finish(
                clone_text_result(self.result.as_ref().unwrap()),
            ),
        }
    }

    /// Takes the caller's reply to the pending action and gives the next.
    pub fn step(&mut self, reply: SyncReply) -> (a: SyncAction)
        requires
            old(self).wf(),
        ensures
            final(self).wf(),
            final(self)@ == sync_next(old(self)@, reply@),
            a@ == sync_action(final(self)@),
    {
        match (self.stage, reply) {
            (SyncStage::Opening, SyncReply::Opened(Ok(()))) => {
                self.stage = SyncStage::FindingOrigin;
            },
            (SyncStage::Opening, SyncReply::Opened(Err(e))) => {
                self.finish(Err(e.text()));
            },
            (SyncStage::FindingOrigin, SyncReply::OriginFound(Ok(()))) => {
                self.stage = if self.kind == SyncKind::Push {
                    SyncStage::ReadingHead
                } else {
                    SyncStage::Transferring
                };
            },
            (SyncStage::FindingOrigin, SyncReply::OriginFound(Err(_))) => {
                self.finish(Err(String::from_str("No remote 'origin' configured")));
            },
            (SyncStage::ReadingHead, SyncReply::Head(Ok(name))) => {
                self.stage = SyncStage::Transferring;
                self.branch = match name {
                    Some(b) => b,
                    None => String::from_str("main"),
                };
            },
            (SyncStage::ReadingHead, SyncReply::Head(Err(e))) => {
                self.finish(Err(e.text()));
            },
            (SyncStage::Transferring, SyncReply::Transferred(Ok(()))) => {
                let t = match self.kind {
                    SyncKind::Push => {
                        let mut s = String::from_str("Pushed ");
                        s.append(self.branch.as_str());
                        s.append(" to origin");
                        s
                    },
                    SyncKind::Fetch => String::from_str("Fetched from origin"),
                };
                self.finish(Ok(t));
            },
            (SyncStage::Transferring, SyncReply::Transferred(Err(e))) => {
                let op = match self.kind {
                    SyncKind::Push => "Push",
                    SyncKind::Fetch => "Fetch",
                };
                let t = network_failure_text(op, &e);
                self.finish(Err(t));
            },
            _ => {},
        }
        self.action()
    }
}

/// A blank token is refused before the repository is opened.
pub proof fn law_transfer_needs_token(kind: SyncKind, pat: Seq<char>)
    requires
        is_blank(pat),
    ensures
        sync_action(sync_start(kind, pat)) == SyncActionView::Finish(
            Err(no_pat_text(op_name(kind))),
        ),
{
}

/// A fetch never asks for HEAD nor pushes: its only transfer is a fetch.
pub proof fn law_fetch_only_fetches(f: SyncFlowView, r: SyncReplyView)
    requires
        f.kind == SyncKind::Fetch,
        f.stage != SyncStage::ReadingHead,
    ensures
        sync_next(f, r).kind == SyncKind::Fetch,
        sync_next(f, r).stage != SyncStage::ReadingHead,
        !(sync_action(sync_next(f, r)) is Push),
{
}

/// What a push or fetch asks for, or reports, after each reply to the
/// action it asked for, spelled out with its texts: origin is looked up;
/// a push then reads HEAD and pushes `refs/heads/B:refs/heads/B` for its
/// branch B ("main" when HEAD's name is not readable), a fetch fetches at
/// once; success reports "Pushed B to origin" or "Fetched from origin", a
/// failed transfer "Push failed (CLASS): MESSAGE" or "Fetch failed
/// (CLASS): MESSAGE", a missing origin its own text, and every other
/// failure git2's text.
pub proof fn law_sync_replies(f: SyncFlowView, r: SyncReplyView)
    requires
        sync_wf(f),
    ensures
        ({
            let g = sync_next(f, r);
            let a = sync_action(g);
            let title = if f.kind == SyncKind::Push {
                "Push"@
            } else {
                "Fetch"@
            };
            &&& f.stage == SyncStage::Opening ==> (r matches SyncReplyView::Opened(res) ==> a == match res {
                Ok(_) => SyncActionView::FindOrigin,
                Err(e) => SyncActionView::Finish(Err(e.text)),
            })
            &&& f.stage == SyncStage::FindingOrigin ==> (r matches SyncReplyView::OriginFound(res)
                ==> a == match res {
                Ok(_) => if f.kind == SyncKind::Push {
                    SyncActionView::ReadHead
                } else {
                    SyncActionView::Fetch
                },
                Err(_) => SyncActionView::Finish(Err("No remote 'origin' configured"@)),
            })
            &&& f.stage == SyncStage::ReadingHead && f.kind == SyncKind::Push ==> (
            r matches SyncReplyView::Head(res) ==> a == match res {
                Ok(Some(name)) => SyncActionView::Push(
                    "refs/heads/"@ + name + ":refs/heads/"@ + name,
                ),
                Ok(None) => SyncActionView::Push("refs/heads/main:refs/heads/main"@),
                Err(e) => SyncActionView::Finish(Err(e.text)),
            })
            &&& f.stage == SyncStage::Transferring ==> (r matches SyncReplyView::Transferred(res)
                ==> a == match res {
                Ok(_) => SyncActionView::Finish(
                    Ok(
                        if f.kind == SyncKind::Push {
                            "Pushed "@ + f.branch + " to origin"@
                        } else {
                            "Fetched from origin"@
                        },
                    ),
                ),
                Err(e) => SyncActionView::Finish(
                    Err(title + " failed ("@ + e.class_name + "): "@ + e.message),
                ),
            })
        }),
{
    reveal_strlit("main");
    reveal_strlit("refs/heads/");
    reveal_strlit(":refs/heads/");
    reveal_strlit("refs/heads/main:refs/heads/main");
    assert("refs/heads/"@ + "main"@ + ":refs/heads/"@ + "main"@ =~= "refs/heads/main:refs/heads/main"@);
}

/// The refusal of a clone without a URL.
pub open spec fn no_url_text() -> Seq<char> {
    "Enter a repository URL to clone"@
}

/// Whether a clone of `url` with the token `pat` may go ahead: a blank
/// token is refused first, then a blank URL.
pub open spec fn clone_check(url: Seq<char>, pat: Seq<char>) -> Result<(), Seq<char>> {
    if is_blank(pat) {
        Err(no_pat_text("clone"@))
    } else if is_blank(url) {
        Err(no_url_text())
    } else {
        Ok(())
    }
}

/// Checks a clone request before anything is fetched.
pub fn check_clone(url: &str, pat: &str) -> (r: Result<(), String>)
    ensures
        match r {
            Ok(_) => clone_check(url@, pat@) is Ok,
            Err(t) => clone_check(url@, pat@) == Err::<(), Seq<char>>(t@),
        },
{
    match refuse_blank_pat(pat, "clone") {
        Some(t) => Err(t),
        None => {
            if blank(url) {
                Err(String::from_str("Enter a repository URL to clone"))
            } else {
                Ok(())
            }
        },
    }
}

/// A blank token is refused before the URL is looked at, and a blank URL
/// before anything is fetched.
pub proof fn law_clone_checks_token_then_url(url: Seq<char>, pat: Seq<char>)
    ensures
        is_blank(pat) ==> clone_check(url, pat) == Err::<(), Seq<char>>(no_pat_text("clone"@)),
        !is_blank(pat) && is_blank(url) ==> clone_check(url, pat) == Err::<(), Seq<char>>(
            no_url_text(),
        ),
        !is_blank(pat) && !is_blank(url) ==> clone_check(url, pat) is Ok,
{
}

/// What a clone reports once git2 has tried it.
pub open spec fn clone_outcome(r: Result<(), GitErrorView>) -> Result<(), Seq<char>> {
    match r {
        Ok(_) => Ok(()),
        Err(e) => Err(network_failure("Clone"@, e)),
    }
}

/// The result of a clone from git2's result.
pub fn clone_result(r: Result<(), GitError>) -> (out: Result<(), String>)
    ensures
        match out {
            Ok(_) => clone_outcome(result_view(r)) is Ok,
            Err(t) => clone_outcome(result_view(r)) == Err::<(), Seq<char>>(t@),
        },
{
    match r {
        Ok(()) => Ok(()),
        Err(e) => Err(network_failure_text("Clone", &e)),
    }
}

/// The checks and results of a clone, spelled out: a blank token is
/// refused with "No PAT available for clone", then a blank URL with
/// "Enter a repository URL to clone"; a failed clone is reported as
/// "Clone failed (CLASS): MESSAGE"; a push or fetch with a blank token is
/// refused at once with "No PAT available for push" or "... for fetch".
pub proof fn law_clone_texts(url: Seq<char>, pat: Seq<char>, e: GitErrorView, kind: SyncKind)
    ensures
        clone_check(url, pat) == if is_blank(pat) {
            Err::<(), Seq<char>>("No PAT available for "@ + "clone"@)
        } else if is_blank(url) {
            Err("Enter a repository URL to clone"@)
        } else {
            Ok(())
        },
        clone_outcome(Ok(())) == Ok::<(), Seq<char>>(()),
        clone_outcome(Err(e)) == Err::<(), Seq<char>>("Clone"@ + " failed ("@ + e.class_name
            + "): "@ + e.message),
        is_blank(pat) ==> sync_action(sync_start(kind, pat)) == SyncActionView::Finish(
            Err(
                "No PAT available for "@ + if kind == SyncKind::Push {
                    "push"@
                } else {
                    "fetch"@
                },
            ),
        ),
        !is_blank(pat) ==> sync_action(sync_start(kind, pat)) == SyncActionView::OpenRepository,
{
}

} // verus!
