//! The commit history shown to the user: at most the fifty most recent
//! commits reachable from HEAD, newest first as the walk gives them.

use vstd::prelude::*;
use vstd::string::*;
use crate::clock::{elapsed, relative_text, relative_time_at, unix_now};
use crate::errors::{error_text, result_view, GitError, GitErrorView};
use crate::git::{hex_lower, short_hash};
use crate::records::{CommitEntry, CommitEntryView};

verus! {

/// How many commits the history shows at most.
pub const HISTORY_LIMIT: usize = 50;

/// What the caller reads of one commit.
pub struct CommitInfo {
    pub id: [u8; 20],
    /// The first paragraph of the message, absent when it is not UTF-8.
    pub summary: Option<String>,
    /// The commit time, in Unix seconds.
    pub time: i64,
}

pub struct CommitInfoView {
    pub id: Seq<u8>,
    pub summary: Option<Seq<char>>,
    pub time: i64,
}

impl View for CommitInfo {
    type V = CommitInfoView;

    open spec fn view(&self) -> CommitInfoView {
        CommitInfoView {
            id: self.id@,
            summary: match self.summary {
                Some(s) => Some(s@),
                None => None,
            },
            time: self.time,
        }
    }
}

/// The entry shown for a commit, seen at `now`.
pub open spec fn history_entry(c: CommitInfoView, now: i64) -> CommitEntryView {
    CommitEntryView {
        hash: hex_lower(c.id).subrange(0, 7),
        message: match c.summary {
            Some(s) => s,
            None => Seq::empty(),
        },
        time_ago: relative_text(elapsed(now as int, c.time as int)),
    }
}

/// The entry for a commit, seen at `now`.
pub fn entry_for(c: CommitInfo, now: i64) -> (r: CommitEntry)
    ensures
        r@ == history_entry(c@, now),
{
    let hash = short_hash(c.id.as_slice());
    let message = match c.summary {
        Some(s) => s,
        None => String::new(),
    };
    CommitEntry { hash, message, time_ago: relative_time_at(now, c.time) }
}

/// Where a history listing stands.
#[derive(PartialEq, Eq, Structural, Clone, Copy, Debug)]
pub enum HistoryStage {
    Opening,
    CheckingHead,
    StartingWalk,
    Walking,
    Finished,
}

/// What the caller is to do next.
pub enum HistoryAction {
    OpenRepository,
    /// Ask whether HEAD resolves; a repository without commits has none.
    CheckHead,
    /// Start a walk of the commits from HEAD.
    StartWalk,
    /// Take the next commit of the walk and read it.
    NextCommit,
    Finish(Result<Vec<CommitEntry>, String>),
}

pub enum HistoryActionView {
    OpenRepository,
    CheckHead,
    StartWalk,
    NextCommit,
    Finish(Result<Seq<CommitEntryView>, Seq<char>>),
}

pub open spec fn entry_views(v: Seq<CommitEntry>) -> Seq<CommitEntryView> {
    v.map_values(|e: CommitEntry| e@)
}

pub open spec fn listing_view(r: Result<Vec<CommitEntry>, String>) -> Result<Seq<CommitEntryView>, Seq<char>> {
    match r {
        Ok(v) => Ok(entry_views(v@)),
        Err(s) => Err(s@),
    }
}

impl View for HistoryAction {
    type V = HistoryActionView;

    open spec fn view(&self) -> HistoryActionView {
        match self {
            HistoryAction::OpenRepository => HistoryActionView::OpenRepository,
            HistoryAction::CheckHead => HistoryActionView::CheckHead,
            HistoryAction::StartWalk => HistoryActionView::StartWalk,
            HistoryAction::NextCommit => HistoryActionView::NextCommit,
            HistoryAction::Finish(r) => HistoryActionView::Finish(listing_view(*r)),
        }
    }
}

/// How the caller's work went.
pub enum HistoryReply {
    Opened(Result<(), GitError>),
    HeadChecked(bool),
    WalkStarted(Result<(), GitError>),
    /// The next commit, the failure of getting it, or nothing when the
    /// walk is over.
    Next(Option<Result<CommitInfo, GitError>>),
}

pub enum HistoryReplyView {
    Opened(Result<(), GitErrorView>),
    HeadChecked(bool),
    WalkStarted(Result<(), GitErrorView>),
    Next(Option<Result<CommitInfoView, GitErrorView>>),
}

impl View for HistoryReply {
    type V = HistoryReplyView;

    open spec fn view(&self) -> HistoryReplyView {
        match self {
            HistoryReply::Opened(r) => HistoryReplyView::Opened(result_view(*r)),
            HistoryReply::HeadChecked(b) => HistoryReplyView::HeadChecked(*b),
            HistoryReply::WalkStarted(r) => HistoryReplyView::WalkStarted(result_view(*r)),
            HistoryReply::Next(n) => HistoryReplyView::Next(
                match n {
                    Some(Ok(c)) => Some(Ok(c@)),
                    Some(Err(e)) => Some(Err(e@)),
                    None => None,
                },
            ),
        }
    }
}

/// One history listing under way, with the time its entries are seen at.
pub struct HistoryFlow {
    now: i64,
    stage: HistoryStage,
    entries: Vec<CommitEntry>,
    error: Option<String>,
}

pub struct HistoryFlowView {
    pub now: i64,
    pub stage: HistoryStage,
    pub entries: Seq<CommitEntryView>,
    pub error: Option<Seq<char>>,
}

impl View for HistoryFlow {
    type V = HistoryFlowView;

    closed spec fn view(&self) -> HistoryFlowView {
        HistoryFlowView {
            now: self.now,
            stage: self.stage,
            entries: entry_views(self.entries@),
            error: match self.error {
                Some(s) => Some(s@),
                None => None,
            },
        }
    }
}

pub open spec fn history_start(now: i64) -> HistoryFlowView {
    HistoryFlowView { now, stage: HistoryStage::Opening, entries: Seq::empty(), error: None }
}

pub open spec fn history_failed(f: HistoryFlowView, e: GitErrorView) -> HistoryFlowView {
    HistoryFlowView { stage: HistoryStage::Finished, error: Some(error_text(e)), ..f }
}

/// What a reply does to a listing; a reply that does not answer the
/// pending action changes nothing.
pub open spec fn history_next(f: HistoryFlowView, r: HistoryReplyView) -> HistoryFlowView {
    match (f.stage, r) {
        (HistoryStage::Opening, HistoryReplyView::Opened(Ok(_))) => HistoryFlowView {
            stage: HistoryStage::CheckingHead,
            ..f
        },
        (HistoryStage::Opening, HistoryReplyView::Opened(Err(e))) => history_failed(f, e),
        (HistoryStage::CheckingHead, HistoryReplyView::HeadChecked(ok)) => HistoryFlowView {
            stage: if ok {
                HistoryStage::StartingWalk
            } else {
                HistoryStage::Finished
            },
            ..f
        },
        (HistoryStage::StartingWalk, HistoryReplyView::WalkStarted(Ok(_))) => HistoryFlowView {
            stage: HistoryStage::Walking,
            ..f
        },
        (HistoryStage::StartingWalk, HistoryReplyView::WalkStarted(Err(e))) => history_failed(f, e),
        (HistoryStage::Walking, HistoryReplyView::Next(None)) => HistoryFlowView {
            stage: HistoryStage::Finished,
            ..f
        },
        (HistoryStage::Walking, HistoryReplyView::Next(Some(Err(e)))) => history_failed(f, e),
        (HistoryStage::Walking, HistoryReplyView::Next(Some(Ok(c)))) => {
            let entries = f.entries.push(history_entry(c, f.now));
            HistoryFlowView {
                stage: if entries.len() >= HISTORY_LIMIT {
                    HistoryStage::Finished
                } else {
                    HistoryStage::Walking
                },
                entries,
                ..f
            }
        },
        _ => f,
    }
}

/// The listing's result once finished: its entries, or its error.
pub open spec fn history_result(f: HistoryFlowView) -> Result<Seq<CommitEntryView>, Seq<char>> {
    match f.error {
        Some(e) => Err(e),
        None => Ok(f.entries),
    }
}

pub open spec fn history_action(f: HistoryFlowView) -> HistoryActionView {
    match f.stage {
        HistoryStage::Opening => HistoryActionView::OpenRepository,
        HistoryStage::CheckingHead => HistoryActionView::CheckHead,
        HistoryStage::StartingWalk => HistoryActionView::StartWalk,
        HistoryStage::Walking => HistoryActionView::NextCommit,
        HistoryStage::Finished => HistoryActionView::Finish(history_result(f)),
    }
}

/// Entries never exceed the limit, and stay below it while walking; an
/// error only comes with the end.
pub open spec fn history_wf(f: HistoryFlowView) -> bool {
    &&& f.entries.len() <= HISTORY_LIMIT
    &&& f.stage == HistoryStage::Walking ==> f.entries.len() < HISTORY_LIMIT
    &&& (f.stage == HistoryStage::Opening || f.stage == HistoryStage::CheckingHead || f.stage
        == HistoryStage::StartingWalk) ==> f.entries.len() == 0
    &&& f.error is Some ==> f.stage == HistoryStage::Finished
}

fn clone_entries(v: &Vec<CommitEntry>) -> (r: Vec<CommitEntry>)
    ensures
        entry_views(r@) == entry_views(v@),
{
    let mut out: Vec<CommitEntry> = Vec::new();
    let n = v.len();
    let mut i: usize = 0;
    while i < n
        invariant
            n == v@.len(),
            i <= n,
            out@.len() == i,
            entry_views(out@) == entry_views(v@).take(i as int),
        decreases n - i,
    {
        let e = v[i].clone();
        assert(e@ == v@[i as int]@);
        let ghost prev = out@;
        out.push(e);
        assert(out@ == prev.push(e));
        proof {
            assert forall|j: int| 0 <= j < i + 1 implies #[trigger] entry_views(out@)[j]
                == entry_views(v@).take(i + 1)[j] by {
                if j < i {
                    assert(out@[j] == prev[j]);
                    assert(entry_views(prev)[j] == entry_views(v@).take(i as int)[j]);
                }
            }
            assert(entry_views(out@) =~= entry_views(v@).take(i + 1));
        }
        i = i + 1;
    }
    proof {
        assert(entry_views(v@).take(n as int) =~= entry_views(v@));
    }
    out
}

impl HistoryFlow {
    pub closed spec fn wf(&self) -> bool {
        history_wf(self@)
    }

    /// Starts a listing whose entries are seen at `now` (Unix seconds).
    pub fn start(now: i64) -> (r: (HistoryFlow, HistoryAction))
        ensures
            r.0.wf(),
            r.0@ == history_start(now),
            r.1@ == history_action(r.0@),
    {
        let flow = HistoryFlow {
            now,
            stage: HistoryStage::Opening,
            entries: Vec::new(),
            error: None,
        };
        proof {
            assert(entry_views(flow.entries@) =~= Seq::<CommitEntryView>::empty());
        }
        let a = flow.action();
        (flow, a)
    }

    /// Starts a listing seen from the current time of the system clock.
    pub fn start_now() -> (r: (HistoryFlow, HistoryAction))
        ensures
            r.0.wf(),
            exists|now: i64| r.0@ == history_start(now),
            r.1@ == history_action(r.0@),
    {
        let now = unix_now();
        HistoryFlow::start(now)
    }

    /// The action pending.
    pub fn action(&self) -> (a: HistoryAction)
        requires
            self.wf(),
        ensures
            a@ == history_action(self@),
    {
        match self.stage {
            HistoryStage::Opening => HistoryAction::OpenRepository,
            HistoryStage::CheckingHead => HistoryAction::CheckHead,
            HistoryStage::StartingWalk => HistoryAction::StartWalk,
            HistoryStage::Walking => HistoryAction::NextCommit,
            HistoryStage::Finished => match &self.error {
                Some(e) => HistoryAction::Finish(Err(e.clone())),
                None => HistoryAction::Finish(Ok(clone_entries(&self.entries))),
            },
        }
    }

    /// Takes the caller's reply to the pending action and gives the next.
    pub fn step(&mut self, reply: HistoryReply) -> (a: HistoryAction)
        requires
            old(self).wf(),
        ensures
            final(self).wf(),
            final(self)@ == history_next(old(self)@, reply@),
            a@ == history_action(final(self)@),
    {
        match (self.stage, reply) {
            (HistoryStage::Opening, HistoryReply::Opened(Ok(()))) => {
                self.stage = HistoryStage::CheckingHead;
            },
            (HistoryStage::Opening, HistoryReply::Opened(Err(e))) => {
                self.stage = HistoryStage::Finished;
                self.error = Some(e.text());
            },
            (HistoryStage::CheckingHead, HistoryReply::HeadChecked(ok)) => {
                self.stage = if ok {
                    HistoryStage::StartingWalk
                } else {
                    HistoryStage::Finished
                };
            },
            (HistoryStage::StartingWalk, HistoryReply::WalkStarted(Ok(()))) => {
                self.stage = HistoryStage::Walking;
            },
            (HistoryStage::StartingWalk, HistoryReply::WalkStarted(Err(e))) => {
                self.stage = HistoryStage::Finished;
                self.error = Some(e.text());
            },
            (HistoryStage::Walking, HistoryReply::Next(None)) => {
                self.stage = HistoryStage::Finished;
            },
            (HistoryStage::Walking, HistoryReply::Next(Some(Err(e)))) => {
                self.stage = HistoryStage::Finished;
                self.error = Some(e.text());
            },
            (HistoryStage::Walking, HistoryReply::Next(Some(Ok(c)))) => {
                let e = entry_for(c, self.now);
                self.entries.push(e);
                proof {
                    assert(entry_views(self.entries@) =~= entry_views(old(self).entries@).push(
                        e@,
                    ));
                }
                if self.entries.len() >= HISTORY_LIMIT {
                    self.stage = HistoryStage::Finished;
                }
            },
            _ => {},
        }
        self.action()
    }
}

/// A listing never shows more than `HISTORY_LIMIT` commits: every
/// listing the flow can be in keeps that bound, and each reply keeps it.
pub proof fn law_history_is_bounded(f: HistoryFlowView, r: HistoryReplyView)
    requires
        history_wf(f),
    ensures
        history_wf(history_next(f, r)),
        history_next(f, r).entries.len() <= HISTORY_LIMIT,
        history_action(history_next(f, r)) matches HistoryActionView::Finish(Ok(es)) ==> es.len()
            <= HISTORY_LIMIT,
{
}

/// A repository without commits has an empty history, not an error.
pub proof fn law_empty_repository_has_empty_history(f: HistoryFlowView)
    requires
        history_wf(f),
        f.stage == HistoryStage::CheckingHead,
        f.entries.len() == 0,
    ensures
        history_action(history_next(f, HistoryReplyView::HeadChecked(false)))
            == HistoryActionView::Finish(Ok(Seq::<CommitEntryView>::empty())),
{
    assert(f.entries =~= Seq::<CommitEntryView>::empty());
}

/// The listing after the caller's replies `rs`, in order.
pub open spec fn history_after(f: HistoryFlowView, rs: Seq<HistoryReplyView>) -> HistoryFlowView
    decreases rs.len(),
{
    if rs.len() == 0 {
        f
    } else {
        history_next(history_after(f, rs.drop_last()), rs.last())
    }
}

proof fn lemma_history_split(f: HistoryFlowView, a: Seq<HistoryReplyView>, b: Seq<HistoryReplyView>)
    ensures
        history_after(f, a + b) == history_after(history_after(f, a), b),
    decreases b.len(),
{
    if b.len() > 0 {
        lemma_history_split(f, a, b.drop_last());
        assert((a + b).drop_last() =~= a + b.drop_last());
    } else {
        assert(a + b =~= a);
    }
}

proof fn lemma_history_one(f: HistoryFlowView, r: HistoryReplyView)
    ensures
        history_after(f, seq![r]) == history_next(f, r),
{
    let one = seq![r];
    assert(one.drop_last() =~= Seq::<HistoryReplyView>::empty());
    assert(history_after(f, one.drop_last()) == f);
    assert(one.last() == r);
}

/// The walk handing out the commits `cs`, in order.
pub open spec fn walk_replies(cs: Seq<CommitInfoView>) -> Seq<HistoryReplyView> {
    cs.map_values(|c: CommitInfoView| HistoryReplyView::Next(Some(Ok(c))))
}

/// The entries shown for the commits `cs`, seen at `now`.
pub open spec fn entries_of(cs: Seq<CommitInfoView>, now: i64) -> Seq<CommitEntryView> {
    cs.map_values(|c: CommitInfoView| history_entry(c, now))
}

pub open spec fn min(a: int, b: int) -> int {
    if a <= b { a } else { b }
}

proof fn lemma_walk(f: HistoryFlowView, cs: Seq<CommitInfoView>)
    requires
        history_wf(f),
        f.stage == HistoryStage::Walking,
        f.error is None,
    ensures
        history_after(f, walk_replies(cs)) == (HistoryFlowView {
            stage: if f.entries.len() + cs.len() >= HISTORY_LIMIT {
                HistoryStage::Finished
            } else {
                HistoryStage::Walking
            },
            entries: f.entries + entries_of(
                cs.take(min(cs.len() as int, HISTORY_LIMIT - f.entries.len())),
                f.now,
            ),
            ..f
        }),
    decreases cs.len(),
{
    let e = f.entries;
    if cs.len() == 0 {
        assert(walk_replies(cs) =~= Seq::<HistoryReplyView>::empty());
        assert(entries_of(cs.take(0), f.now) =~= Seq::<CommitEntryView>::empty());
        assert(e + Seq::<CommitEntryView>::empty() =~= e);
    } else {
        let prev = cs.drop_last();
        assert(walk_replies(cs).drop_last() =~= walk_replies(prev));
        lemma_walk(f, prev);
        let g = history_after(f, walk_replies(prev));
        if e.len() + prev.len() >= HISTORY_LIMIT {
            let m = HISTORY_LIMIT - e.len();
            assert(cs.take(m) =~= prev.take(m));
        } else {
            assert(prev.take(prev.len() as int) =~= prev);
            assert(cs.take(cs.len() as int) =~= cs);
            assert(entries_of(cs, f.now) =~= entries_of(prev, f.now).push(
                history_entry(cs.last(), f.now),
            ));
            assert(e + entries_of(cs, f.now) =~= (e + entries_of(prev, f.now)).push(
                history_entry(cs.last(), f.now),
            ));
        }
    }
}

/// A listing of a repository whose walk from HEAD hands out the commits
/// `cs` shows exactly the first `min(cs.len(), HISTORY_LIMIT)` of them, in
/// walk order, each as its entry seen at the listing's time.
pub proof fn law_history_lists_walk_in_order(now: i64, cs: Seq<CommitInfoView>)
    ensures
        ({
            let opened = seq![
                HistoryReplyView::Opened(Ok(())),
                HistoryReplyView::HeadChecked(true),
                HistoryReplyView::WalkStarted(Ok(())),
            ];
            let rs = opened + walk_replies(cs) + seq![HistoryReplyView::Next(None)];
            history_action(history_after(history_start(now), rs)) == HistoryActionView::Finish(
                Ok(entries_of(cs.take(min(cs.len() as int, HISTORY_LIMIT as int)), now)),
            )
        }),
{
    let f = history_start(now);
    let opened = seq![
        HistoryReplyView::Opened(Ok(())),
        HistoryReplyView::HeadChecked(true),
        HistoryReplyView::WalkStarted(Ok(())),
    ];
    let s1 = seq![HistoryReplyView::Opened(Ok(()))];
    let s2 = seq![HistoryReplyView::HeadChecked(true)];
    let s3 = seq![HistoryReplyView::WalkStarted(Ok(()))];
    assert(opened =~= s1 + s2 + s3);
    lemma_history_split(f, s1 + s2, s3);
    lemma_history_split(f, s1, s2);
    lemma_history_one(f, s1[0]);
    let f1 = history_after(f, s1);
    lemma_history_one(f1, s2[0]);
    let f2 = history_after(f1, s2);
    lemma_history_one(f2, s3[0]);
    let w = history_after(f, opened);
    assert(w.stage == HistoryStage::Walking);
    assert(w.entries.len() == 0);
    lemma_history_split(f, opened, walk_replies(cs));
    lemma_walk(w, cs);
    let g = history_after(f, opened + walk_replies(cs));
    let end = seq![HistoryReplyView::Next(None)];
    lemma_history_split(f, opened + walk_replies(cs), end);
    lemma_history_one(g, end[0]);
    assert(w.entries =~= Seq::<CommitEntryView>::empty());
    assert(w.entries + entries_of(cs.take(min(cs.len() as int, HISTORY_LIMIT as int)), now)
        =~= entries_of(cs.take(min(cs.len() as int, HISTORY_LIMIT as int)), now));
}

/// How a listing answers each reply, spelled out: a commit handed out by
/// the walk is appended as an entry whose hash is the first seven hex
/// digits of its id, whose message is exactly its summary (whatever its
/// length; empty when it has none), and whose age is the wording of its
/// time seen at the listing's time; the listing ends at the fiftieth
/// entry or at the end of the walk with its entries, and at any failure
/// with git2's text; a repository without commits lists nothing.
pub proof fn law_history_replies(f: HistoryFlowView, r: HistoryReplyView)
    requires
        history_wf(f),
    ensures
        ({
            let g = history_next(f, r);
            &&& f.stage == HistoryStage::Walking ==> (r matches HistoryReplyView::Next(Some(Ok(c)))
                ==> {
                &&& g.entries == f.entries.push(
                    CommitEntryView {
                        hash: hex_lower(c.id).subrange(0, 7),
                        message: match c.summary {
                            Some(s) => s,
                            None => Seq::empty(),
                        },
                        time_ago: relative_text(elapsed(f.now as int, c.time as int)),
                    },
                )
                &&& (f.entries.len() + 1 < HISTORY_LIMIT ==> history_action(g)
                    == HistoryActionView::NextCommit)
                &&& (f.entries.len() + 1 >= HISTORY_LIMIT ==> history_action(g)
                    == HistoryActionView::Finish(Ok(g.entries)))
            })
            &&& f.stage == HistoryStage::Walking ==> (r == HistoryReplyView::Next(None) ==> history_action(g)
                == HistoryActionView::Finish(Ok(f.entries)))
            &&& f.stage == HistoryStage::Walking ==> (r matches HistoryReplyView::Next(Some(Err(e)))
                ==> history_action(g) == HistoryActionView::Finish(Err(e.text)))
            &&& f.stage == HistoryStage::Opening ==> (r matches HistoryReplyView::Opened(Err(e))
                ==> history_action(g) == HistoryActionView::Finish(Err(e.text)))
            &&& f.stage == HistoryStage::StartingWalk ==> (r matches HistoryReplyView::WalkStarted(
                Err(e),
            ) ==> history_action(g) == HistoryActionView::Finish(Err(e.text)))
            &&& f.stage == HistoryStage::CheckingHead ==> (r == HistoryReplyView::HeadChecked(false)
                ==> history_action(g) == HistoryActionView::Finish(Ok(Seq::empty())))
        }),
{
    if f.stage == HistoryStage::CheckingHead {
        assert(f.entries =~= Seq::<CommitEntryView>::empty());
    }
}

/// Every entry of a listing shows the commit the walk handed out at its
/// place: the first seven hex digits of its id, exactly its summary
/// (whatever its length; empty when it has none), and the wording of its
/// age seen at the listing's time.
pub proof fn law_history_entries_show_their_commits(now: i64, cs: Seq<CommitInfoView>)
    ensures
        ({
            let opened = seq![
                HistoryReplyView::Opened(Ok(())),
                HistoryReplyView::HeadChecked(true),
                HistoryReplyView::WalkStarted(Ok(())),
            ];
            let rs = opened + walk_replies(cs) + seq![HistoryReplyView::Next(None)];
            history_action(history_after(history_start(now), rs)) matches HistoryActionView::Finish(
                Ok(es),
            ) && es.len() == min(cs.len() as int, HISTORY_LIMIT as int) && forall|k: int|
                0 <= k < es.len() ==> {
                    &&& (#[trigger] es[k]).hash == hex_lower(cs[k].id).subrange(0, 7)
                    &&& es[k].message == match cs[k].summary {
                        Some(s) => s,
                        None => Seq::empty(),
                    }
                    &&& es[k].time_ago == relative_text(elapsed(now as int, cs[k].time as int))
                }
        }),
{
    law_history_lists_walk_in_order(now, cs);
}

/// A listing opens the repository, asks whether HEAD resolves, starts a
/// walk from HEAD and then takes commits one by one; it starts empty.
pub proof fn law_history_start(now: i64, f: HistoryFlowView, r: HistoryReplyView)
    requires
        history_wf(f),
    ensures
        history_action(history_start(now)) == HistoryActionView::OpenRepository,
        history_start(now).entries.len() == 0,
        history_start(now).now == now,
        f.stage == HistoryStage::Opening && r == HistoryReplyView::Opened(Ok(())) ==> history_action(
            history_next(f, r),
        ) == HistoryActionView::CheckHead,
        f.stage == HistoryStage::CheckingHead && r == HistoryReplyView::HeadChecked(true)
            ==> history_action(history_next(f, r)) == HistoryActionView::StartWalk,
        f.stage == HistoryStage::StartingWalk && r == HistoryReplyView::WalkStarted(Ok(()))
            ==> history_action(history_next(f, r)) == HistoryActionView::NextCommit,
{
}

} // verus!
