//! How long ago a commit was made, in words.

use vstd::prelude::*;
use vstd::string::*;
use crate::text::{decimal, decimal_text, lemma_decimal_reads_back, read_decimal};

verus! {

/// Seconds from `commit` to `now`, or zero for a commit dated in the future.
pub open spec fn elapsed(now: int, commit: int) -> int {
    if now - commit > 0 { now - commit } else { 0 }
}

/// The wording for a commit made `secs` seconds ago: under a minute is
/// "just now", then whole minutes, whole hours, and whole days.
pub open spec fn relative_text(secs: int) -> Seq<char> {
    if secs < 60 {
        "just now"@
    } else if secs < 3600 {
        decimal((secs / 60) as nat) + " minutes ago"@
    } else if secs < 86400 {
        decimal((secs / 3600) as nat) + " hours ago"@
    } else {
        decimal((secs / 86400) as nat) + " days ago"@
    }
}

/// The wording for a commit made at `commit_secs` (Unix seconds) seen at
/// `now` (Unix seconds).
pub fn relative_time_at(now: i64, commit_secs: i64) -> (r: String)
    ensures
        r@ == relative_text(elapsed(now as int, commit_secs as int)),
{
    let d: i128 = now as i128 - commit_secs as i128;
    let secs: u64 = if d > 0 {
        d as u64
    } else {
        0
    };
    assert(secs as int == elapsed(now as int, commit_secs as int));
    if secs < 60 {
        String::from_str("just now")
    } else if secs < 3600 {
        let mut s = decimal_text(secs / 60);
        s.append(" minutes ago");
        s
    } else if secs < 86400 {
        let mut s = decimal_text(secs / 3600);
        s.append(" hours ago");
        s
    } else {
        let mut s = decimal_text(secs / 86400);
        s.append(" days ago");
        s
    }
}

/// Reads the system clock with `std::time::SystemTime::now()` and measures
/// it from `UNIX_EPOCH` with `duration_since`: whole seconds after the
/// epoch as `Ok`, or, for a clock set before 1970 (when `duration_since`
/// fails), whole seconds before it as `Err`. Nothing is promised of the
/// value, which is the machine's clock.
#[verifier::external_body]
fn system_clock() -> Result<u64, u64> {
    match std::time::SystemTime::now().duration_since(std::time::UNIX_EPOCH) {
        Ok(d) => Ok(d.as_secs()),
        Err(e) => Err(e.duration().as_secs()),
    }
}

/// The current Unix time in whole seconds, from the system clock,
/// negative before 1970 (a reading beyond the range of `i64` is taken as
/// its bound).
pub(crate) fn unix_now() -> i64 {
    let reading = system_clock();
    match reading {
        Ok(s) => if s <= i64::MAX as u64 {
            s as i64
        } else {
            i64::MAX
        },
        Err(s) => if s <= i64::MAX as u64 {
            -(s as i64)
        } else {
            -i64::MAX
        },
    }
}

/// The wording for a commit made at `commit_secs`, seen from the current
/// time of the system clock.
pub fn relative_time(commit_secs: i64) -> (r: String)
    ensures
        exists|now: i64| r@ == relative_text(elapsed(now as int, commit_secs as int)),
{
    let now = unix_now();
    relative_time_at(now, commit_secs)
}

/// How many seconds a wording stands for: "just now" for none, else its
/// number times its unit.
pub open spec fn shown_secs(secs: int) -> int {
    if secs < 60 {
        0
    } else if secs < 3600 {
        60 * (secs / 60)
    } else if secs < 86400 {
        3600 * (secs / 3600)
    } else {
        86400 * (secs / 86400)
    }
}

/// The unit of a wording: a minute for "just now" and minutes, an hour for
/// hours, a day for days.
pub open spec fn shown_unit(secs: int) -> int {
    if secs < 3600 {
        60
    } else if secs < 86400 {
        3600
    } else {
        86400
    }
}

/// A wording rounds the elapsed time down to its unit: it stands for at
/// most the elapsed seconds, less than one unit short of them, and two
/// elapsed times that stand for the same amount get the same wording.
pub proof fn law_relative_time_rounds_down(now: i64, commit: i64)
    ensures
        ({
            let d = elapsed(now as int, commit as int);
            &&& 0 <= shown_secs(d) <= d < shown_secs(d) + shown_unit(d)
            &&& relative_text(d) == relative_text(shown_secs(d))
        }),
{
    let d = elapsed(now as int, commit as int);
    if d >= 60 {
        if d < 3600 {
            assert(60 * (d / 60) <= d < 60 * (d / 60) + 60) by (nonlinear_arith)
                requires
                    d >= 0,
            ;
            assert(60 * (d / 60) >= 60) by (nonlinear_arith)
                requires
                    d >= 60,
            ;
            assert((60 * (d / 60)) / 60 == d / 60) by (nonlinear_arith)
                requires
                    d >= 0,
            ;
        } else if d < 86400 {
            assert(3600 * (d / 3600) <= d < 3600 * (d / 3600) + 3600) by (nonlinear_arith)
                requires
                    d >= 0,
            ;
            assert(3600 * (d / 3600) >= 3600) by (nonlinear_arith)
                requires
                    d >= 3600,
            ;
            assert((3600 * (d / 3600)) / 3600 == d / 3600) by (nonlinear_arith)
                requires
                    d >= 0,
            ;
        } else {
            assert(86400 * (d / 86400) <= d < 86400 * (d / 86400) + 86400) by (nonlinear_arith)
                requires
                    d >= 0,
            ;
            assert(86400 * (d / 86400) >= 86400) by (nonlinear_arith)
                requires
                    d >= 86400,
            ;
            assert((86400 * (d / 86400)) / 86400 == d / 86400) by (nonlinear_arith)
                requires
                    d >= 0,
            ;
        }
    }
}

proof fn lemma_shown_monotone(a: int, b: int)
    requires
        0 <= b <= a,
    ensures
        shown_secs(b) <= shown_secs(a),
{
    assert(60 * (b / 60) <= b) by (nonlinear_arith)
        requires
            b >= 0,
    ;
    assert(3600 * (b / 3600) <= b) by (nonlinear_arith)
        requires
            b >= 0,
    ;
    assert(a >= 60 ==> 60 * (a / 60) >= 60) by (nonlinear_arith);
    assert(a >= 3600 ==> 3600 * (a / 3600) >= 3600) by (nonlinear_arith);
    assert(a >= 86400 ==> 86400 * (a / 86400) >= 86400) by (nonlinear_arith);
    assert(60 * (b / 60) <= 60 * (a / 60)) by (nonlinear_arith)
        requires
            0 <= b <= a,
    ;
    assert(3600 * (b / 3600) <= 3600 * (a / 3600)) by (nonlinear_arith)
        requires
            0 <= b <= a,
    ;
    assert(86400 * (b / 86400) <= 86400 * (a / 86400)) by (nonlinear_arith)
        requires
            0 <= b <= a,
    ;
}

/// Seen at one time, an older commit never reads as more recent: the
/// amount its wording stands for is at least that of a newer commit's.
pub proof fn law_relative_time_ordered(now: i64, older: i64, newer: i64)
    requires
        older <= newer,
    ensures
        shown_secs(elapsed(now as int, newer as int)) <= shown_secs(
            elapsed(now as int, older as int),
        ),
{
    lemma_shown_monotone(elapsed(now as int, older as int), elapsed(now as int, newer as int));
}

/// Whether `t` ends with `suffix`.
pub open spec fn ends_with(t: Seq<char>, suffix: Seq<char>) -> bool {
    t.len() >= suffix.len() && t.subrange(t.len() - suffix.len(), t.len() as int) == suffix
}

/// The number written before `suffix` in `t`.
pub open spec fn number_before(t: Seq<char>, suffix: Seq<char>) -> int {
    read_decimal(t.subrange(0, t.len() - suffix.len()))
}

/// How many seconds a wording says, read from its text: "k minutes ago"
/// says `60 * k`, "k hours ago" `3600 * k`, "k days ago" `86400 * k`, and
/// "just now" none.
pub open spec fn text_secs(t: Seq<char>) -> int {
    if ends_with(t, " minutes ago"@) {
        60 * number_before(t, " minutes ago"@)
    } else if ends_with(t, " hours ago"@) {
        3600 * number_before(t, " hours ago"@)
    } else if ends_with(t, " days ago"@) {
        86400 * number_before(t, " days ago"@)
    } else {
        0
    }
}

/// The unit a wording counts in, read from its text: a minute for "just
/// now" and minutes, an hour for hours, a day for days.
pub open spec fn text_unit(t: Seq<char>) -> int {
    if ends_with(t, " minutes ago"@) {
        60
    } else if ends_with(t, " hours ago"@) {
        3600
    } else if ends_with(t, " days ago"@) {
        86400
    } else {
        60
    }
}

proof fn lemma_reads(k: nat, suffix: Seq<char>)
    ensures
        ({
            let t = decimal(k) + suffix;
            &&& t.subrange(t.len() - suffix.len(), t.len() as int) == suffix
            &&& number_before(t, suffix) == k
            &&& t.len() == decimal(k).len() + suffix.len()
            &&& decimal(k).len() >= 1
        }),
{
    lemma_decimal_reads_back(k);
    let t = decimal(k) + suffix;
    assert(t.subrange(t.len() - suffix.len(), t.len() as int) =~= suffix);
    assert(t.subrange(0, t.len() - suffix.len()) =~= decimal(k));
}

/// Read back from its text, a wording says exactly the seconds
/// `shown_secs` gives, counted in the unit `shown_unit` gives.
pub proof fn law_relative_text_reads_back(secs: int)
    requires
        secs >= 0,
    ensures
        text_secs(relative_text(secs)) == shown_secs(secs),
        text_unit(relative_text(secs)) == shown_unit(secs),
{
    reveal_strlit("just now");
    reveal_strlit(" minutes ago");
    reveal_strlit(" hours ago");
    reveal_strlit(" days ago");
    let t = relative_text(secs);
    if secs < 60 {
        assert(!ends_with(t, " minutes ago"@));
        assert(!ends_with(t, " hours ago"@));
        assert(!ends_with(t, " days ago"@));
    } else if secs < 3600 {
        lemma_reads((secs / 60) as nat, " minutes ago"@);
    } else if secs < 86400 {
        let k = (secs / 3600) as nat;
        lemma_reads(k, " hours ago"@);
        if t.len() >= 12 {
            assert(t.subrange(t.len() - 12, t.len() as int)[3] == 'h');
            assert(!ends_with(t, " minutes ago"@));
        }
    } else {
        let k = (secs / 86400) as nat;
        lemma_reads(k, " days ago"@);
        if t.len() >= 12 {
            assert(t.subrange(t.len() - 12, t.len() as int)[3] == ' ');
            assert(!ends_with(t, " minutes ago"@));
        }
        if t.len() >= 10 {
            assert(t.subrange(t.len() - 10, t.len() as int)[3] == 'a');
            assert(!ends_with(t, " hours ago"@));
        }
    }
}

/// The two laws above, read from the text the user sees: for a wording
/// `t` of a commit made `d` seconds ago, `text_secs(t) <= d <
/// text_secs(t) + text_unit(t)`, and, seen at one time, an older commit's
/// wording says at least as many seconds as a newer one's.
pub proof fn law_wording_rounds_down_and_is_ordered(now: i64, older: i64, newer: i64)
    requires
        older <= newer,
    ensures
        ({
            let d = elapsed(now as int, older as int);
            let t = relative_text(d);
            0 <= text_secs(t) <= d < text_secs(t) + text_unit(t)
        }),
        text_secs(relative_text(elapsed(now as int, newer as int))) <= text_secs(
            relative_text(elapsed(now as int, older as int)),
        ),
{
    law_relative_time_rounds_down(now, older);
    law_relative_time_ordered(now, older, newer);
    law_relative_text_reads_back(elapsed(now as int, older as int));
    law_relative_text_reads_back(elapsed(now as int, newer as int));
}

/// The wording of an elapsed time, spelled out: under a minute "just
/// now", under an hour the whole minutes, under a day the whole hours,
/// else the whole days, each as "N minutes ago", "N hours ago" or "N days
/// ago"; a commit dated in the future reads as "just now".
pub proof fn law_relative_time_buckets(now: i64, commit: i64)
    ensures
        ({
            let d = now - commit;
            let t = relative_text(elapsed(now as int, commit as int));
            &&& d < 60 ==> t == "just now"@
            &&& 60 <= d < 3600 ==> t == decimal((d / 60) as nat) + " minutes ago"@
            &&& 3600 <= d < 86400 ==> t == decimal((d / 3600) as nat) + " hours ago"@
            &&& 86400 <= d ==> t == decimal((d / 86400) as nat) + " days ago"@
        }),
{
}

} // verus!
