//! Operations on the working tree: discarding a file's changes, switching
//! branches, and the small decisions around branches and the origin
//! remote.

use vstd::prelude::*;
use vstd::string::*;
use crate::errors::{
    describe_lock_error, error_text, lock_description, locked_text, result_view, ErrClass, ErrCode,
    GitError, GitErrorView,
};
use crate::text::views;

verus! {

/// Where a discard stands.
#[derive(PartialEq, Eq, Structural, Clone, Copy, Debug)]
pub enum DiscardStage {
    Opening,
    CheckingTracked,
    CheckingOut,
    CheckingExists,
    Removing,
    Finished,
}

/// What the caller is to do next.
pub enum DiscardAction {
    OpenRepository,
    /// Look this path up in HEAD's tree (reading HEAD, peeling it to its
    /// tree, finding the entry).
    CheckTracked(String),
    /// Restore this path from HEAD by force (trying again while locked).
    Checkout(String),
    /// Ask whether this path, under the repository's directory, exists.
    CheckExists(String),
    /// Delete this file (trying again on sharing violations).
    Remove(String),
    Finish(Result<(), String>),
}

pub enum DiscardActionView {
    OpenRepository,
    CheckTracked(Seq<char>),
    Checkout(Seq<char>),
    CheckExists(Seq<char>),
    Remove(Seq<char>),
    Finish(Result<(), Seq<char>>),
}

pub open spec fn unit_result_view(r: Result<(), String>) -> Result<(), Seq<char>> {
    match r {
        Ok(_) => Ok(()),
        Err(s) => Err(s@),
    }
}

impl View for DiscardAction {
    type V = DiscardActionView;

    open spec fn view(&self) -> DiscardActionView {
        match self {
            DiscardAction::OpenRepository => DiscardActionView::OpenRepository,
            DiscardAction::CheckTracked(p) => DiscardActionView::CheckTracked(p@),
            DiscardAction::Checkout(p) => DiscardActionView::Checkout(p@),
            DiscardAction::CheckExists(p) => DiscardActionView::CheckExists(p@),
            DiscardAction::Remove(p) => DiscardActionView::Remove(p@),
            DiscardAction::Finish(r) => DiscardActionView::Finish(unit_result_view(*r)),
        }
    }
}

/// How the caller's work went.
pub enum DiscardReply {
    Opened(Result<(), GitError>),
    /// The path was found in HEAD's tree, or the first failure of the
    /// lookup.
    InHead(Result<(), GitError>),
    CheckedOut(Result<(), GitError>),
    Exists(bool),
    /// The file was removed, or the text of the last failure.
    Removed(Result<(), String>),
}

pub enum DiscardReplyView {
    Opened(Result<(), GitErrorView>),
    InHead(Result<(), GitErrorView>),
    CheckedOut(Result<(), GitErrorView>),
    Exists(bool),
    Removed(Result<(), Seq<char>>),
}

impl View for DiscardReply {
    type V = DiscardReplyView;

    open spec fn view(&self) -> DiscardReplyView {
        match self {
            DiscardReply::Opened(r) => DiscardReplyView::Opened(result_view(*r)),
            DiscardReply::InHead(r) => DiscardReplyView::InHead(result_view(*r)),
            DiscardReply::CheckedOut(r) => DiscardReplyView::CheckedOut(result_view(*r)),
            DiscardReply::Exists(b) => DiscardReplyView::Exists(*b),
            DiscardReply::Removed(r) => DiscardReplyView::Removed(unit_result_view(*r)),
        }
    }
}

/// One discard under way: a tracked file is restored from HEAD; a file
/// HEAD does not know is deleted, there being nothing to restore.
pub struct DiscardFlow {
    path: String,
    stage: DiscardStage,
    result: Option<Result<(), String>>,
}

pub struct DiscardFlowView {
    pub path: Seq<char>,
    pub stage: DiscardStage,
    pub result: Option<Result<(), Seq<char>>>,
}

impl View for DiscardFlow {
    type V = DiscardFlowView;

    closed spec fn view(&self) -> DiscardFlowView {
        DiscardFlowView {
            path: self.path@,
            stage: self.stage,
            result: match self.result {
                Some(r) => Some(unit_result_view(r)),
                None => None,
            },
        }
    }
}

/// The text for a file that could not be deleted; `cause` is the file
/// system's own text.
pub open spec fn remove_failed_text(path: Seq<char>, cause: Seq<char>) -> Seq<char> {
    locked_text(path) + ": "@ + cause
}

pub open spec fn discard_finished(f: DiscardFlowView, r: Result<(), Seq<char>>) -> DiscardFlowView {
    DiscardFlowView { stage: DiscardStage::Finished, result: Some(r), ..f }
}

pub open spec fn discard_at(f: DiscardFlowView, stage: DiscardStage) -> DiscardFlowView {
    DiscardFlowView { stage, ..f }
}

pub open spec fn discard_start(path: Seq<char>) -> DiscardFlowView {
    DiscardFlowView { path, stage: DiscardStage::Opening, result: None }
}

/// What a reply does to a discard; a reply that does not answer the
/// pending action changes nothing.
pub open spec fn discard_next(f: DiscardFlowView, r: DiscardReplyView) -> DiscardFlowView {
    match (f.stage, r) {
        (DiscardStage::Opening, DiscardReplyView::Opened(Ok(_))) => discard_at(
            f,
            DiscardStage::CheckingTracked,
        ),
        (DiscardStage::Opening, DiscardReplyView::Opened(Err(e))) => discard_finished(
            f,
            Err(error_text(e)),
        ),
        (DiscardStage::CheckingTracked, DiscardReplyView::InHead(found)) => discard_at(
            f,
            if found is Ok {
                DiscardStage::CheckingOut
            } else {
                DiscardStage::CheckingExists
            },
        ),
        (DiscardStage::CheckingOut, DiscardReplyView::CheckedOut(Ok(_))) => discard_finished(
            f,
            Ok(()),
        ),
        (DiscardStage::CheckingOut, DiscardReplyView::CheckedOut(Err(e))) => discard_finished(
            f,
            Err(lock_description(f.path, e)),
        ),
        (DiscardStage::CheckingExists, DiscardReplyView::Exists(x)) => if x {
            discard_at(f, DiscardStage::Removing)
        } else {
            discard_finished(f, Ok(()))
        },
        (DiscardStage::Removing, DiscardReplyView::Removed(Ok(_))) => discard_finished(f, Ok(())),
        (DiscardStage::Removing, DiscardReplyView::Removed(Err(cause))) => discard_finished(
            f,
            Err(remove_failed_text(f.path, cause)),
        ),
        _ => f,
    }
}

pub open spec fn discard_action(f: DiscardFlowView) -> DiscardActionView {
    match f.stage {
        DiscardStage::Opening => DiscardActionView::OpenRepository,
        DiscardStage::CheckingTracked => DiscardActionView::CheckTracked(f.path),
        DiscardStage::CheckingOut => DiscardActionView::Checkout(f.path),
        DiscardStage::CheckingExists => DiscardActionView::CheckExists(f.path),
        DiscardStage::Removing => DiscardActionView::Remove(f.path),
        DiscardStage::Finished => DiscardActionView::Finish(f.result.unwrap()),
    }
}

pub open spec fn discard_wf(f: DiscardFlowView) -> bool {
    f.stage == DiscardStage::Finished <==> f.result is Some
}

fn clone_unit_result(r: &Result<(), String>) -> (c: Result<(), String>)
    ensures
        unit_result_view(c) == unit_result_view(*r),
{
    match r {
        Ok(()) => Ok(()),
        Err(s) => Err(s.clone()),
    }
}

impl DiscardFlow {
    pub closed spec fn wf(&self) -> bool {
        discard_wf(self@)
    }

    /// Starts discarding the changes to `path`.
    pub fn start(path: String) -> (r: (DiscardFlow, DiscardAction))
        ensures
            r.0.wf(),
            r.0@ == discard_start(path@),
            r.1@ == discard_action(r.0@),
    {
        let flow = DiscardFlow { path, stage: DiscardStage::Opening, result: None };
        let a = flow.action();
        (flow, a)
    }

    fn finish(&mut self, r: Result<(), String>)
        ensures
            final(self)@ == discard_finished(old(self)@, unit_result_view(r)),
    {
        self.stage = DiscardStage::Finished;
        self.result = Some(r);
    }

    /// The action pending.
    pub fn action(&self) -> (a: DiscardAction)
        requires
            self.wf(),
        ensures
            a@ == discard_action(self@),
    {
        match self.stage {
            DiscardStage::Opening => DiscardAction::OpenRepository,
            DiscardStage::CheckingTracked => DiscardAction::CheckTracked(self.path.clone()),
            DiscardStage::CheckingOut => DiscardAction::Checkout(self.path.clone()),
            DiscardStage::CheckingExists => DiscardAction::CheckExists(self.path.clone()),
            DiscardStage::Removing => DiscardAction::Remove(self.path.clone()),
            DiscardStage::Finished => DiscardAction::Finish(
                clone_unit_result(self.result.as_ref().unwrap()),
            ),
        }
    }

    /// Takes the caller's reply to the pending action and gives the next.
    pub fn step(&mut self, reply: DiscardReply) -> (a: DiscardAction)
        requires
            old(self).wf(),
        ensures
            final(self).wf(),
            final(self)@ == discard_next(old(self)@, reply@),
            a@ == discard_action(final(self)@),
    {
        match (self.stage, reply) {
            (DiscardStage::Opening, DiscardReply::Opened(Ok(()))) => {
                self.stage = DiscardStage::CheckingTracked;
            },
            (DiscardStage::Opening, DiscardReply::Opened(Err(e))) => {
                self.finish(Err(e.text()));
            },
            (DiscardStage::CheckingTracked, DiscardReply::InHead(found)) => {
                self.stage = if found.is_ok() {
                    DiscardStage::CheckingOut
                } else {
                    DiscardStage::CheckingExists
                };
            },
            (DiscardStage::CheckingOut, DiscardReply::CheckedOut(Ok(()))) => {
                self.finish(Ok(()));
            },
            (DiscardStage::CheckingOut, DiscardReply::CheckedOut(Err(e))) => {
                let t = describe_lock_error(self.path.as_str(), &e);
                self.finish(Err(t));
            },
            (DiscardStage::CheckingExists, DiscardReply::Exists(x)) => {
                if x {
                    self.stage = DiscardStage::Removing;
                } else {
                    self.finish(Ok(()));
                }
            },
            (DiscardStage::Removing, DiscardReply::Removed(Ok(()))) => {
                self.finish(Ok(()));
            },
            (DiscardStage::Removing, DiscardReply::Removed(Err(cause))) => {
                let mut s = String::from_str("'");
                s.append(self.path.as_str());
                s.append("' is locked by another program — close it and try again");
                s.append(": ");
                s.append(cause.as_str());
                self.finish(Err(s));
            },
            _ => {},
        }
        self.action()
    }
}

/// A tracked file is only ever restored, never deleted; a file HEAD does
/// not know (any failure of the lookup counts as not knowing it) is never
/// checked out.
pub proof fn law_discard_restores_or_deletes(f: DiscardFlowView, r: DiscardReplyView)
    ensures
        discard_next(f, r).stage == DiscardStage::Removing ==> f.stage == DiscardStage::Removing
            || (f.stage == DiscardStage::CheckingExists && r == DiscardReplyView::Exists(true)),
        discard_next(f, r).stage == DiscardStage::CheckingExists ==> f.stage
            == DiscardStage::CheckingExists || (f.stage == DiscardStage::CheckingTracked && r is InHead
            && r->InHead_0 is Err),
        discard_next(f, r).stage == DiscardStage::CheckingOut ==> f.stage
            == DiscardStage::CheckingOut || (f.stage == DiscardStage::CheckingTracked && r is InHead
            && r->InHead_0 is Ok),
{
}

/// What a discard asks for, or reports, after each reply to the action it
/// asked for, spelled out with its texts: a path found in HEAD's tree is
/// restored from HEAD, and a successful restore ends the discard with
/// success; a failed restore ends it with the lock text for a lock and
/// git2's text otherwise; a path HEAD does not know is deleted if it
/// exists (success when it does not), and a failed deletion ends it with
/// the lock text followed by the file system's own. Once a discard has
/// ended it asks for nothing more, whatever follows.
pub proof fn law_discard_replies(f: DiscardFlowView, r: DiscardReplyView, rs: Seq<DiscardReplyView>)
    requires
        discard_wf(f),
    ensures
        ({
            let g = discard_next(f, r);
            let a = discard_action(g);
            let locked = "'"@ + f.path + "' is locked by another program — close it and try again"@;
            &&& f.stage == DiscardStage::Opening ==> (r == DiscardReplyView::Opened(Ok(())) ==> a
                == DiscardActionView::CheckTracked(f.path))
            &&& f.stage == DiscardStage::Opening ==> (r matches DiscardReplyView::Opened(Err(e))
                ==> a == DiscardActionView::Finish(Err(e.text)))
            &&& f.stage == DiscardStage::CheckingTracked ==> (r matches DiscardReplyView::InHead(
                found,
            ) ==> a == if found is Ok {
                DiscardActionView::Checkout(f.path)
            } else {
                DiscardActionView::CheckExists(f.path)
            })
            &&& f.stage == DiscardStage::CheckingOut ==> (r == DiscardReplyView::CheckedOut(Ok(()))
                ==> a == DiscardActionView::Finish(Ok(())))
            &&& f.stage == DiscardStage::CheckingOut ==> (r matches DiscardReplyView::CheckedOut(
                Err(e),
            ) ==> a == DiscardActionView::Finish(
                Err(
                    if e.class == ErrClass::Os && e.code == ErrCode::GenericError {
                        locked
                    } else {
                        e.text
                    },
                ),
            ))
            &&& f.stage == DiscardStage::CheckingExists ==> (r == DiscardReplyView::Exists(true)
                ==> a == DiscardActionView::Remove(f.path))
            &&& f.stage == DiscardStage::CheckingExists ==> (r == DiscardReplyView::Exists(false)
                ==> a == DiscardActionView::Finish(Ok(())))
            &&& f.stage == DiscardStage::Removing ==> (r == DiscardReplyView::Removed(Ok(())) ==> a
                == DiscardActionView::Finish(Ok(())))
            &&& f.stage == DiscardStage::Removing ==> (r matches DiscardReplyView::Removed(Err(cause))
                ==> a == DiscardActionView::Finish(Err(locked + ": "@ + cause)))
            &&& a is Finish ==> discard_action(discard_after(g, rs)) == a
        }),
{
    let g = discard_next(f, r);
    if g.stage == DiscardStage::Finished {
        lemma_discard_final(g, rs);
    }
}

/// The discard after the caller's replies `rs`, in order.
pub open spec fn discard_after(f: DiscardFlowView, rs: Seq<DiscardReplyView>) -> DiscardFlowView
    decreases rs.len(),
{
    if rs.len() == 0 {
        f
    } else {
        discard_next(discard_after(f, rs.drop_last()), rs.last())
    }
}

proof fn lemma_discard_final(f: DiscardFlowView, rs: Seq<DiscardReplyView>)
    requires
        f.stage == DiscardStage::Finished,
    ensures
        discard_after(f, rs) == f,
    decreases rs.len(),
{
    if rs.len() > 0 {
        lemma_discard_final(f, rs.drop_last());
    }
}

/// Where a branch switch stands.
#[derive(PartialEq, Eq, Structural, Clone, Copy, Debug)]
pub enum SwitchStage {
    Opening,
    Resolving,
    CheckingOut,
    SettingHead,
    Finished,
}

/// What the caller is to do next.
pub enum SwitchAction {
    OpenRepository,
    /// Resolve this reference to an object.
    Resolve(String),
    /// Check out the tree of the object with this id, the one the branch
    /// resolved to (trying again while files are locked).
    CheckoutTree([u8; 20]),
    /// Make this reference HEAD.
    SetHead(String),
    Finish(Result<(), String>),
}

pub enum SwitchActionView {
    OpenRepository,
    Resolve(Seq<char>),
    CheckoutTree(Seq<u8>),
    SetHead(Seq<char>),
    Finish(Result<(), Seq<char>>),
}

impl View for SwitchAction {
    type V = SwitchActionView;

    open spec fn view(&self) -> SwitchActionView {
        match self {
            SwitchAction::OpenRepository => SwitchActionView::OpenRepository,
            SwitchAction::Resolve(s) => SwitchActionView::Resolve(s@),
            SwitchAction::CheckoutTree(id) => SwitchActionView::CheckoutTree(id@),
            SwitchAction::SetHead(s) => SwitchActionView::SetHead(s@),
            SwitchAction::Finish(r) => SwitchActionView::Finish(unit_result_view(*r)),
        }
    }
}

/// How the caller's work went.
pub enum SwitchReply {
    /// The repository was opened, or not.
    Opened(Result<(), GitError>),
    /// The id of the object the reference resolved to, or the failure.
    Resolved(Result<[u8; 20], GitError>),
    /// The tree was checked out, or the last failure of checking it out.
    CheckedOut(Result<(), GitError>),
    /// HEAD was set, or not.
    HeadSet(Result<(), GitError>),
}

pub enum SwitchReplyView {
    Opened(Result<(), GitErrorView>),
    Resolved(Result<Seq<u8>, GitErrorView>),
    CheckedOut(Result<(), GitErrorView>),
    HeadSet(Result<(), GitErrorView>),
}

impl View for SwitchReply {
    type V = SwitchReplyView;

    open spec fn view(&self) -> SwitchReplyView {
        match self {
            SwitchReply::Opened(r) => SwitchReplyView::Opened(result_view(*r)),
            SwitchReply::Resolved(r) => SwitchReplyView::Resolved(
                match r {
                    Ok(id) => Ok(id@),
                    Err(e) => Err(e@),
                },
            ),
            SwitchReply::CheckedOut(r) => SwitchReplyView::CheckedOut(result_view(*r)),
            SwitchReply::HeadSet(r) => SwitchReplyView::HeadSet(result_view(*r)),
        }
    }
}

/// One switch to a local branch under way.
pub struct SwitchFlow {
    branch: String,
    stage: SwitchStage,
    target: Option<[u8; 20]>,
    result: Option<Result<(), String>>,
}

pub struct SwitchFlowView {
    pub branch: Seq<char>,
    pub stage: SwitchStage,
    /// The object the branch resolved to, once resolved.
    pub target: Option<Seq<u8>>,
    pub result: Option<Result<(), Seq<char>>>,
}

impl View for SwitchFlow {
    type V = SwitchFlowView;

    closed spec fn view(&self) -> SwitchFlowView {
        SwitchFlowView {
            branch: self.branch@,
            stage: self.stage,
            target: match self.target {
                Some(t) => Some(t@),
                None => None,
            },
            result: match self.result {
                Some(r) => Some(unit_result_view(r)),
                None => None,
            },
        }
    }
}

/// The full name of a local branch.
pub open spec fn branch_ref(b: Seq<char>) -> Seq<char> {
    "refs/heads/"@ + b
}

pub open spec fn switch_ended(f: SwitchFlowView, r: Result<(), Seq<char>>) -> SwitchFlowView {
    SwitchFlowView { stage: SwitchStage::Finished, result: Some(r), ..f }
}

/// A switch to the local branch `branch`.
pub open spec fn switch_start(branch: Seq<char>) -> SwitchFlowView {
    SwitchFlowView { branch, stage: SwitchStage::Opening, target: None, result: None }
}

/// What a reply does to a switch; a reply that does not answer the
/// pending action changes nothing.
pub open spec fn switch_next(f: SwitchFlowView, r: SwitchReplyView) -> SwitchFlowView {
    match (f.stage, r) {
        (SwitchStage::Opening, SwitchReplyView::Opened(Ok(_))) => SwitchFlowView {
            stage: SwitchStage::Resolving,
            ..f
        },
        (SwitchStage::Opening, SwitchReplyView::Opened(Err(e))) => switch_ended(
            f,
            Err(error_text(e)),
        ),
        (SwitchStage::Resolving, SwitchReplyView::Resolved(Ok(id))) => SwitchFlowView {
            stage: SwitchStage::CheckingOut,
            target: Some(id),
            ..f
        },
        (SwitchStage::Resolving, SwitchReplyView::Resolved(Err(e))) => switch_ended(
            f,
            Err(error_text(e)),
        ),
        (SwitchStage::CheckingOut, SwitchReplyView::CheckedOut(Ok(_))) => SwitchFlowView {
            stage: SwitchStage::SettingHead,
            ..f
        },
        (SwitchStage::CheckingOut, SwitchReplyView::CheckedOut(Err(e))) => switch_ended(
            f,
            Err(lock_description(f.branch, e)),
        ),
        (SwitchStage::SettingHead, SwitchReplyView::HeadSet(Ok(_))) => switch_ended(f, Ok(())),
        (SwitchStage::SettingHead, SwitchReplyView::HeadSet(Err(e))) => switch_ended(
            f,
            Err(error_text(e)),
        ),
        _ => f,
    }
}

pub open spec fn switch_action(f: SwitchFlowView) -> SwitchActionView {
    match f.stage {
        SwitchStage::Opening => SwitchActionView::OpenRepository,
        SwitchStage::Resolving => SwitchActionView::Resolve(branch_ref(f.branch)),
        SwitchStage::CheckingOut => SwitchActionView::CheckoutTree(f.target.unwrap()),
        SwitchStage::SettingHead => SwitchActionView::SetHead(branch_ref(f.branch)),
        SwitchStage::Finished => SwitchActionView::Finish(f.result.unwrap()),
    }
}

pub open spec fn switch_wf(f: SwitchFlowView) -> bool {
    &&& (f.stage == SwitchStage::Finished <==> f.result is Some)
    &&& (f.stage == SwitchStage::CheckingOut ==> f.target is Some)
}

impl SwitchFlow {
    pub closed spec fn wf(&self) -> bool {
        switch_wf(self@)
    }

    /// Starts switching to the local branch `branch`.
    pub fn start(branch: String) -> (r: (SwitchFlow, SwitchAction))
        ensures
            r.0.wf(),
            r.0@ == switch_start(branch@),
            r.1@ == switch_action(r.0@),
    {
        let flow = SwitchFlow { branch, stage: SwitchStage::Opening, target: None, result: None };
        let a = flow.action();
        (flow, a)
    }

    fn end(&mut self, r: Result<(), String>)
        ensures
            final(self)@ == switch_ended(old(self)@, unit_result_view(r)),
    {
        self.stage = SwitchStage::Finished;
        self.result = Some(r);
    }

    /// The action pending.
    pub fn action(&self) -> (a: SwitchAction)
        requires
            self.wf(),
        ensures
            a@ == switch_action(self@),
    {
        match self.stage {
            SwitchStage::Opening => SwitchAction::OpenRepository,
            SwitchStage::Resolving => {
                let mut s = String::from_str("refs/heads/");
                s.append(self.branch.as_str());
                SwitchAction::Resolve(s)
            },
            SwitchStage::CheckingOut => SwitchAction::CheckoutTree(self.target.unwrap()),
            SwitchStage::SettingHead => {
                let mut s = String::from_str("refs/heads/");
                s.append(self.branch.as_str());
                SwitchAction::SetHead(s)
            },
            SwitchStage::Finished => SwitchAction::Finish(
                clone_unit_result(self.result.as_ref().unwrap()),
            ),
        }
    }

    /// Takes the caller's reply to the pending action and gives the next.
    pub fn step(&mut self, reply: SwitchReply) -> (a: SwitchAction)
        requires
            old(self).wf(),
        ensures
            final(self).wf(),
            final(self)@ == switch_next(old(self)@, reply@),
            a@ == switch_action(final(self)@),
    {
        match (self.stage, reply) {
            (SwitchStage::Opening, SwitchReply::Opened(Ok(()))) => {
                self.stage = SwitchStage::Resolving;
            },
            (SwitchStage::Opening, SwitchReply::Opened(Err(e))) => {
                self.end(Err(e.text()));
            },
            (SwitchStage::Resolving, SwitchReply::Resolved(Ok(id))) => {
                self.stage = SwitchStage::CheckingOut;
                self.target = Some(id);
            },
            (SwitchStage::Resolving, SwitchReply::Resolved(Err(e))) => {
                self.end(Err(e.text()));
            },
            (SwitchStage::CheckingOut, SwitchReply::CheckedOut(Ok(()))) => {
                self.stage = SwitchStage::SettingHead;
            },
            (SwitchStage::CheckingOut, SwitchReply::CheckedOut(Err(e))) => {
                let t = describe_lock_error(self.branch.as_str(), &e);
                self.end(Err(t));
            },
            (SwitchStage::SettingHead, SwitchReply::HeadSet(Ok(()))) => {
                self.end(Ok(()));
            },
            (SwitchStage::SettingHead, SwitchReply::HeadSet(Err(e))) => {
                self.end(Err(e.text()));
            },
            _ => {},
        }
        self.action()
    }
}

/// A switch checks out exactly the object that `refs/heads/<branch>`
/// resolved to, and makes that branch HEAD only after the checkout
/// succeeded; a branch that does not resolve ends the switch with the
/// failure's text, before anything is checked out.
pub proof fn law_switch_checks_out_branch(branch: Seq<char>, id: Seq<u8>, e: GitErrorView)
    ensures
        ({
            let f = switch_next(switch_start(branch), SwitchReplyView::Opened(Ok(())));
            let g = switch_next(f, SwitchReplyView::Resolved(Ok(id)));
            let h = switch_next(g, SwitchReplyView::CheckedOut(Ok(())));
            &&& switch_action(f) == SwitchActionView::Resolve(branch_ref(branch))
            &&& switch_action(g) == SwitchActionView::CheckoutTree(id)
            &&& switch_action(h) == SwitchActionView::SetHead(branch_ref(branch))
            &&& switch_next(h, SwitchReplyView::HeadSet(Ok(()))).result == Some(
                Ok::<(), Seq<char>>(()),
            )
            &&& switch_next(f, SwitchReplyView::Resolved(Err(e))).result == Some(
                Err::<(), Seq<char>>(error_text(e)),
            )
        }),
{
}

/// What a switch asks for, or reports, after each reply to the action it
/// asked for, spelled out with its texts: the branch's reference is
/// resolved, the object it resolved to is checked out, and only a
/// successful checkout leads on to making the branch HEAD; a failed
/// checkout (a lock or anything else) ends the switch, with the lock text
/// for a lock and git2's text otherwise; every other failure ends it with
/// git2's text. Once a switch has ended it asks for nothing more.
pub proof fn law_switch_replies(f: SwitchFlowView, r: SwitchReplyView, rs: Seq<SwitchReplyView>)
    requires
        switch_wf(f),
    ensures
        ({
            let g = switch_next(f, r);
            let a = switch_action(g);
            &&& f.stage == SwitchStage::Opening ==> (r == SwitchReplyView::Opened(Ok(())) ==> a
                == SwitchActionView::Resolve("refs/heads/"@ + f.branch))
            &&& f.stage == SwitchStage::Opening ==> (r matches SwitchReplyView::Opened(Err(e)) ==> a
                == SwitchActionView::Finish(Err(e.text)))
            &&& f.stage == SwitchStage::Resolving ==> (r matches SwitchReplyView::Resolved(Ok(id))
                ==> a == SwitchActionView::CheckoutTree(id))
            &&& f.stage == SwitchStage::Resolving ==> (r matches SwitchReplyView::Resolved(Err(e))
                ==> a == SwitchActionView::Finish(Err(e.text)))
            &&& f.stage == SwitchStage::CheckingOut ==> (r == SwitchReplyView::CheckedOut(Ok(()))
                ==> a == SwitchActionView::SetHead("refs/heads/"@ + f.branch))
            &&& f.stage == SwitchStage::CheckingOut ==> (r matches SwitchReplyView::CheckedOut(Err(e))
                ==> a == SwitchActionView::Finish(
                Err(
                    if e.class == ErrClass::Os && e.code == ErrCode::GenericError {
                        "'"@ + f.branch + "' is locked by another program — close it and try again"@
                    } else {
                        e.text
                    },
                ),
            ))
            &&& f.stage == SwitchStage::SettingHead ==> (r == SwitchReplyView::HeadSet(Ok(())) ==> a
                == SwitchActionView::Finish(Ok(())))
            &&& f.stage == SwitchStage::SettingHead ==> (r matches SwitchReplyView::HeadSet(Err(e))
                ==> a == SwitchActionView::Finish(Err(e.text)))
            &&& a is SetHead ==> (f.stage == SwitchStage::SettingHead || (f.stage
                == SwitchStage::CheckingOut && r matches SwitchReplyView::CheckedOut(Ok(_))))
            &&& a is Finish ==> switch_action(switch_after(g, rs)) == a
        }),
{
    let g = switch_next(f, r);
    if g.stage == SwitchStage::Finished {
        lemma_switch_final(g, rs);
    }
}

/// The switch after the caller's replies `rs`, in order.
pub open spec fn switch_after(f: SwitchFlowView, rs: Seq<SwitchReplyView>) -> SwitchFlowView
    decreases rs.len(),
{
    if rs.len() == 0 {
        f
    } else {
        switch_next(switch_after(f, rs.drop_last()), rs.last())
    }
}

proof fn lemma_switch_final(f: SwitchFlowView, rs: Seq<SwitchReplyView>)
    requires
        f.stage == SwitchStage::Finished,
    ensures
        switch_after(f, rs) == f,
    decreases rs.len(),
{
    if rs.len() > 0 {
        lemma_switch_final(f, rs.drop_last());
    }
}

/// The name shown for the current branch: HEAD's short name, or "HEAD"
/// when it has none that reads as text.
pub open spec fn current_branch_name(shorthand: Option<Seq<char>>) -> Seq<char> {
    match shorthand {
        Some(s) => s,
        None => "HEAD"@,
    }
}

/// The name shown for the current branch.
pub fn current_branch(shorthand: Option<String>) -> (r: String)
    ensures
        r@ == current_branch_name(
            match shorthand {
                Some(s) => Some(s@),
                None => None,
            },
        ),
{
    match shorthand {
        Some(s) => s,
        None => String::from_str("HEAD"),
    }
}

pub open spec fn opt_views(v: Seq<Option<String>>) -> Seq<Option<Seq<char>>> {
    v.map_values(
        |o: Option<String>|
            match o {
                Some(s) => Some(s@),
                None => None,
            },
    )
}

/// The names of the local branches, in order: branches whose name does
/// not read as text are left out.
pub open spec fn named(names: Seq<Option<Seq<char>>>) -> Seq<Seq<char>>
    decreases names.len(),
{
    if names.len() == 0 {
        Seq::empty()
    } else {
        match names.last() {
            Some(n) => named(names.drop_last()).push(n),
            None => named(names.drop_last()),
        }
    }
}

/// The branch list from the branches' names.
pub fn branch_names(names: Vec<Option<String>>) -> (r: Vec<String>)
    ensures
        views(r@) == named(opt_views(names@)),
{
    let mut out: Vec<String> = Vec::new();
    let n = names.len();
    let mut i: usize = 0;
    while i < n
        invariant
            n == names@.len(),
            i <= n,
            views(out@) == named(opt_views(names@).take(i as int)),
        decreases n - i,
    {
        proof {
            assert(opt_views(names@).take(i + 1).drop_last() =~= opt_views(names@).take(i as int));
        }
        match &names[i] {
            Some(s) => {
                let c = s.clone();
                out.push(c);
                proof {
                    assert(views(out@) =~= named(opt_views(names@).take(i as int)).push(c@));
                }
            },
            None => {},
        }
        i = i + 1;
    }
    proof {
        assert(opt_views(names@).take(n as int) =~= opt_views(names@));
    }
    out
}

/// How the origin remote is pointed at a URL.
#[derive(PartialEq, Eq, Structural, Clone, Copy, Debug)]
pub enum OriginUpdate {
    /// Change the URL of the existing origin.
    SetUrl,
    /// Create origin with the URL.
    Create,
}

/// Setting the origin's URL changes the existing remote, or creates it.
pub fn origin_update(origin_exists: bool) -> (r: OriginUpdate)
    ensures
        r == (if origin_exists {
            OriginUpdate::SetUrl
        } else {
            OriginUpdate::Create
        }),
{
    if origin_exists {
        OriginUpdate::SetUrl
    } else {
        OriginUpdate::Create
    }
}

/// The branch list keeps, in order, every branch whose name reads as
/// text and leaves out the others; the current branch is shown by HEAD's
/// short name, or as "HEAD" when it has none.
pub proof fn law_branch_names(names: Seq<Option<Seq<char>>>, last: Option<Seq<char>>)
    ensures
        named(Seq::empty()) == Seq::<Seq<char>>::empty(),
        named(names.push(last)) == match last {
            Some(n) => named(names).push(n),
            None => named(names),
        },
        current_branch_name(last) == match last {
            Some(n) => n,
            None => "HEAD"@,
        },
{
    assert(names.push(last).drop_last() =~= names);
}

/// A discard starts by opening the repository, and so does a switch,
/// which has resolved nothing yet.
pub proof fn law_discard_and_switch_start(path: Seq<char>, branch: Seq<char>)
    ensures
        discard_action(discard_start(path)) == DiscardActionView::OpenRepository,
        discard_start(path).path == path,
        switch_action(switch_start(branch)) == SwitchActionView::OpenRepository,
        switch_start(branch).branch == branch,
{
}

} // verus!
