//! Retrying an operation that failed because another program briefly held
//! a file open (Windows holds exclusive locks while an editor, a build
//! watcher or a virus scan has the file open).

use vstd::prelude::*;
use crate::errors::{is_lock_error, is_transient_lock_error, GitError, GitErrorView};

verus! {

/// How many times an operation is tried in all.
pub const LOCK_RETRY_ATTEMPTS: u32 = 5;

/// How long to wait before the next try, in milliseconds.
pub const LOCK_RETRY_DELAY_MS: u64 = 120;

/// The OS error number of a sharing violation on Windows
/// (`ERROR_SHARING_VIOLATION`).
pub const SHARING_VIOLATION: i32 = 32;

/// After try number `attempt` (from 0) failed, whether to try again: only
/// for a transient failure, and only while tries are left.
pub open spec fn retries_after(attempt: int, transient: bool) -> bool {
    attempt + 1 < LOCK_RETRY_ATTEMPTS && transient
}

/// The bookkeeping of one retry loop: how many tries have failed so far.
pub struct RetryLoop {
    attempt: u32,
}

impl View for RetryLoop {
    type V = nat;

    closed spec fn view(&self) -> nat {
        self.attempt as nat
    }
}

impl RetryLoop {
    pub closed spec fn wf(&self) -> bool {
        self.attempt < LOCK_RETRY_ATTEMPTS
    }

    /// A loop before its first try.
    pub fn new() -> (r: Self)
        ensures
            r@ == 0,
            r.wf(),
    {
        RetryLoop { attempt: 0 }
    }

    /// The index of the try under way.
    pub fn attempt(&self) -> (r: u32)
        ensures
            r == self@,
    {
        self.attempt
    }

    /// Records that the try under way failed, transiently or not, and says
    /// whether to wait and try again; if so the next try is under way.
    pub fn failed(&mut self, transient: bool) -> (again: bool)
        requires
            old(self).wf(),
        ensures
            final(self).wf(),
            again == retries_after(old(self)@ as int, transient),
            again ==> final(self)@ == old(self)@ + 1,
            !again ==> final(self)@ == old(self)@,
    {
        if self.attempt + 1 < LOCK_RETRY_ATTEMPTS && transient {
            self.attempt = self.attempt + 1;
            true
        } else {
            false
        }
    }

    /// Records that a git2 call failed with `err`; only a transient lock
    /// is tried again.
    pub fn failed_with(&mut self, err: &GitError) -> (again: bool)
        requires
            old(self).wf(),
        ensures
            final(self).wf(),
            again == retries_after(old(self)@ as int, is_lock_error(err@)),
            again ==> final(self)@ == old(self)@ + 1,
            !again ==> final(self)@ == old(self)@,
    {
        let transient = is_transient_lock_error(err);
        self.failed(transient)
    }
}

/// Whether an OS error number marks a sharing violation; errors from the
/// file system carry no git2 class, so this is how a lock shows there.
pub fn is_sharing_violation(raw_os_error: Option<i32>) -> (r: bool)
    ensures
        r == (raw_os_error == Some(SHARING_VIOLATION)),
{
    match raw_os_error {
        Some(n) => n == SHARING_VIOLATION,
        None => false,
    }
}

/// How one try of an operation came out.
pub enum Outcome {
    Succeeded,
    Failed { transient: bool },
}

/// How many tries a retry loop makes when its tries, from try number
/// `attempt` on, come out as `outcomes` (a loop that runs out of outcomes
/// makes no more tries).
pub open spec fn tries(outcomes: Seq<Outcome>, attempt: int) -> int
    decreases outcomes.len(),
{
    if outcomes.len() == 0 {
        0
    } else {
        match outcomes[0] {
            Outcome::Succeeded => 1,
            Outcome::Failed { transient } => if retries_after(attempt, transient) {
                1 + tries(outcomes.drop_first(), attempt + 1)
            } else {
                1
            },
        }
    }
}

proof fn lemma_tries_bound(outcomes: Seq<Outcome>, attempt: int)
    requires
        0 <= attempt < LOCK_RETRY_ATTEMPTS,
    ensures
        0 <= tries(outcomes, attempt) <= LOCK_RETRY_ATTEMPTS - attempt,
    decreases outcomes.len(),
{
    if outcomes.len() > 0 {
        match outcomes[0] {
            Outcome::Succeeded => {},
            Outcome::Failed { transient } => {
                if retries_after(attempt, transient) {
                    lemma_tries_bound(outcomes.drop_first(), attempt + 1);
                }
            },
        }
    }
}

/// Whatever the tries give, an operation is tried at most
/// `LOCK_RETRY_ATTEMPTS` times.
pub proof fn law_bounded_tries(outcomes: Seq<Outcome>)
    ensures
        tries(outcomes, 0) <= LOCK_RETRY_ATTEMPTS,
{
    lemma_tries_bound(outcomes, 0);
}

/// A failure that is not a lock is never tried again.
pub proof fn law_no_retry_of_other_errors(outcomes: Seq<Outcome>)
    requires
        outcomes.len() > 0,
        outcomes[0] == (Outcome::Failed { transient: false }),
    ensures
        tries(outcomes, 0) == 1,
{
}

/// Locks that clear up before the tries run out are waited out: `k`
/// transient failures followed by a success take `k + 1` tries.
pub proof fn law_locks_are_waited_out(outcomes: Seq<Outcome>, k: int)
    requires
        0 <= k < LOCK_RETRY_ATTEMPTS,
        outcomes.len() == k + 1,
        forall|i: int| 0 <= i < k ==> outcomes[i] == (Outcome::Failed { transient: true }),
        outcomes[k] == Outcome::Succeeded,
    ensures
        tries(outcomes, 0) == k + 1,
{
    lemma_waited_out(outcomes, k, 0);
}

proof fn lemma_waited_out(outcomes: Seq<Outcome>, k: int, attempt: int)
    requires
        0 <= attempt,
        0 <= k,
        attempt + k < LOCK_RETRY_ATTEMPTS,
        outcomes.len() == k + 1,
        forall|i: int| 0 <= i < k ==> outcomes[i] == (Outcome::Failed { transient: true }),
        outcomes[k] == Outcome::Succeeded,
    ensures
        tries(outcomes, attempt) == k + 1,
    decreases k,
{
    if k > 0 {
        let rest = outcomes.drop_first();
        assert forall|i: int| 0 <= i < k - 1 implies rest[i] == (Outcome::Failed {
            transient: true,
        }) by {
            assert(rest[i] == outcomes[i + 1]);
        }
        lemma_waited_out(rest, k - 1, attempt + 1);
    }
}

/// Persistent locks give up after the last try: transient failures only
/// take exactly `LOCK_RETRY_ATTEMPTS` tries.
pub proof fn law_persistent_lock_gives_up(outcomes: Seq<Outcome>)
    requires
        outcomes.len() >= LOCK_RETRY_ATTEMPTS,
        forall|i: int| 0 <= i < outcomes.len() ==> outcomes[i] == (Outcome::Failed {
            transient: true,
        }),
    ensures
        tries(outcomes, 0) == LOCK_RETRY_ATTEMPTS,
{
    lemma_gives_up(outcomes, 0);
}

proof fn lemma_gives_up(outcomes: Seq<Outcome>, attempt: int)
    requires
        0 <= attempt < LOCK_RETRY_ATTEMPTS,
        outcomes.len() >= LOCK_RETRY_ATTEMPTS - attempt,
        forall|i: int| 0 <= i < outcomes.len() ==> outcomes[i] == (Outcome::Failed {
            transient: true,
        }),
    ensures
        tries(outcomes, attempt) == LOCK_RETRY_ATTEMPTS - attempt,
    decreases LOCK_RETRY_ATTEMPTS - attempt,
{
    if attempt + 1 < LOCK_RETRY_ATTEMPTS {
        let rest = outcomes.drop_first();
        assert forall|i: int| 0 <= i < rest.len() implies rest[i] == (Outcome::Failed {
            transient: true,
        }) by {
            assert(rest[i] == outcomes[i + 1]);
        }
        lemma_gives_up(rest, attempt + 1);
    }
}

/// Whether try number `attempt` (from 0) is the last: it succeeded, or
/// its failure is not tried again.
pub open spec fn stops(o: Outcome, attempt: int) -> bool {
    match o {
        Outcome::Succeeded => true,
        Outcome::Failed { transient } => !retries_after(attempt, transient),
    }
}

proof fn lemma_exact_tries(outcomes: Seq<Outcome>, k: int, attempt: int)
    requires
        0 <= k < outcomes.len(),
        stops(outcomes[k], attempt + k),
        forall|j: int| 0 <= j < k ==> !stops(#[trigger] outcomes[j], attempt + j),
    ensures
        tries(outcomes, attempt) == k + 1,
    decreases k,
{
    if k > 0 {
        let rest = outcomes.drop_first();
        assert(!stops(outcomes[0], attempt + 0));
        assert forall|j: int| 0 <= j < k - 1 implies !stops(#[trigger] rest[j], (attempt + 1) + j) by {
            assert(rest[j] == outcomes[j + 1]);
            assert(!stops(outcomes[j + 1], attempt + (j + 1)));
        }
        assert(rest[k - 1] == outcomes[k]);
        lemma_exact_tries(rest, k - 1, attempt + 1);
    }
}

/// The number of tries, for every run: when try `k` is the first that
/// stops (it succeeded, failed other than by a lock, or was the last one
/// allowed), exactly `k + 1` tries are made.
pub proof fn law_exact_tries(outcomes: Seq<Outcome>, k: int)
    requires
        0 <= k < outcomes.len(),
        stops(outcomes[k], k),
        forall|j: int| 0 <= j < k ==> !stops(#[trigger] outcomes[j], j),
    ensures
        tries(outcomes, 0) == k + 1,
{
    assert forall|j: int| 0 <= j < k implies !stops(#[trigger] outcomes[j], 0 + j) by {}
    lemma_exact_tries(outcomes, k, 0);
}

/// A try of a git2 call, as the retry loop sees it: a failure is
/// transient when it is a lock.
pub open spec fn git_outcome(r: Result<(), GitErrorView>) -> Outcome {
    match r {
        Ok(_) => Outcome::Succeeded,
        Err(e) => Outcome::Failed { transient: is_lock_error(e) },
    }
}

/// A try to delete a file, as the retry loop sees it: a failure, given by
/// its OS error number, is transient when it is a sharing violation.
pub open spec fn removal_outcome(r: Result<(), Option<i32>>) -> Outcome {
    match r {
        Ok(_) => Outcome::Succeeded,
        Err(raw) => Outcome::Failed { transient: raw == Some(SHARING_VIOLATION) },
    }
}

/// A try's result as the retry loop sees it, a failure being transient
/// when `transient` says so.
pub open spec fn outcome_of<E>(r: Result<(), E>, transient: spec_fn(E) -> bool) -> Outcome {
    match r {
        Ok(_) => Outcome::Succeeded,
        Err(e) => Outcome::Failed { transient: transient(e) },
    }
}

/// What a retry loop returns when its tries, from try number `attempt`
/// on, give `results`: the result of the try that stops it (none when it
/// runs out of results first).
pub open spec fn returned<E>(
    results: Seq<Result<(), E>>,
    transient: spec_fn(E) -> bool,
    attempt: int,
) -> Option<Result<(), E>>
    decreases results.len(),
{
    if results.len() == 0 {
        None
    } else {
        match results[0] {
            Ok(_) => Some(results[0]),
            Err(e) => if retries_after(attempt, transient(e)) {
                returned(results.drop_first(), transient, attempt + 1)
            } else {
                Some(results[0])
            },
        }
    }
}

proof fn lemma_returned<E>(
    results: Seq<Result<(), E>>,
    transient: spec_fn(E) -> bool,
    k: int,
    attempt: int,
)
    requires
        0 <= k < results.len(),
        stops(outcome_of(results[k], transient), attempt + k),
        forall|j: int| 0 <= j < k ==> !stops(outcome_of(#[trigger] results[j], transient), attempt + j),
    ensures
        returned(results, transient, attempt) == Some(results[k]),
    decreases k,
{
    if k > 0 {
        let rest = results.drop_first();
        assert(!stops(outcome_of(results[0], transient), attempt + 0));
        assert forall|j: int| 0 <= j < k - 1 implies !stops(
            outcome_of(#[trigger] rest[j], transient),
            (attempt + 1) + j,
        ) by {
            assert(rest[j] == results[j + 1]);
            assert(!stops(outcome_of(results[j + 1], transient), attempt + (j + 1)));
        }
        assert(rest[k - 1] == results[k]);
        lemma_returned(rest, transient, k - 1, attempt + 1);
    }
}

/// A failed git2 call is transient when it is a lock.
pub open spec fn git_transient() -> spec_fn(GitErrorView) -> bool {
    |e: GitErrorView| is_lock_error(e)
}

/// A failed deletion is transient when its OS error number marks a
/// sharing violation.
pub open spec fn removal_transient() -> spec_fn(Option<i32>) -> bool {
    |raw: Option<i32>| raw == Some(SHARING_VIOLATION)
}

/// A git2 call retried on locks is made exactly `k + 1` times when try `k`
/// is the first to succeed, to fail other than by a lock, or to be the
/// fifth; the loop returns what try `k` gave.
pub proof fn law_git_retry_tries(results: Seq<Result<(), GitErrorView>>, k: int)
    requires
        0 <= k < results.len(),
        stops(git_outcome(results[k]), k),
        forall|j: int| 0 <= j < k ==> !stops(git_outcome(#[trigger] results[j]), j),
    ensures
        tries(results.map_values(|r: Result<(), GitErrorView>| git_outcome(r)), 0) == k + 1,
        returned(results, git_transient(), 0) == Some(results[k]),
{
    let o = results.map_values(|r: Result<(), GitErrorView>| git_outcome(r));
    assert forall|j: int| 0 <= j < k implies !stops(#[trigger] o[j], j) by {
        assert(o[j] == git_outcome(results[j]));
    }
    law_exact_tries(o, k);
    assert forall|j: int| 0 <= j < results.len() implies outcome_of(
        #[trigger] results[j],
        git_transient(),
    ) == git_outcome(results[j]) by {}
    assert forall|j: int| 0 <= j < k implies !stops(
        outcome_of(#[trigger] results[j], git_transient()),
        0 + j,
    ) by {
        assert(outcome_of(results[j], git_transient()) == git_outcome(results[j]));
    }
    assert(outcome_of(results[k], git_transient()) == git_outcome(results[k]));
    lemma_returned(results, git_transient(), k, 0);
}

/// A git2 call that keeps failing with a lock is made exactly
/// `LOCK_RETRY_ATTEMPTS` times, and the loop returns the last failure.
pub proof fn law_git_lock_gives_up(results: Seq<Result<(), GitErrorView>>)
    requires
        results.len() >= LOCK_RETRY_ATTEMPTS,
        forall|j: int| 0 <= j < results.len() ==> (#[trigger] results[j] matches Err(e) && is_lock_error(e)),
    ensures
        tries(results.map_values(|r: Result<(), GitErrorView>| git_outcome(r)), 0)
            == LOCK_RETRY_ATTEMPTS,
        returned(results, git_transient(), 0) == Some(results[LOCK_RETRY_ATTEMPTS - 1]),
{
    let k = LOCK_RETRY_ATTEMPTS - 1;
    assert(results[k as int] matches Err(e) && is_lock_error(e));
    assert forall|j: int| 0 <= j < k implies !stops(git_outcome(#[trigger] results[j]), j) by {
        assert(results[j] matches Err(e) && is_lock_error(e));
    }
    law_git_retry_tries(results, k as int);
}

/// A file deletion retried on sharing violations is tried exactly `k + 1`
/// times when try `k` is the first to succeed, to fail otherwise, or to be
/// the fifth; the loop returns what try `k` gave.
pub proof fn law_removal_retry_tries(results: Seq<Result<(), Option<i32>>>, k: int)
    requires
        0 <= k < results.len(),
        stops(removal_outcome(results[k]), k),
        forall|j: int| 0 <= j < k ==> !stops(removal_outcome(#[trigger] results[j]), j),
    ensures
        tries(results.map_values(|r: Result<(), Option<i32>>| removal_outcome(r)), 0) == k + 1,
        returned(results, removal_transient(), 0) == Some(results[k]),
{
    let o = results.map_values(|r: Result<(), Option<i32>>| removal_outcome(r));
    assert forall|j: int| 0 <= j < k implies !stops(#[trigger] o[j], j) by {
        assert(o[j] == removal_outcome(results[j]));
    }
    law_exact_tries(o, k);
    assert forall|j: int| 0 <= j < k implies !stops(
        outcome_of(#[trigger] results[j], removal_transient()),
        0 + j,
    ) by {
        assert(outcome_of(results[j], removal_transient()) == removal_outcome(results[j]));
    }
    assert(outcome_of(results[k], removal_transient()) == removal_outcome(results[k]));
    lemma_returned(results, removal_transient(), k, 0);
}

} // verus!
