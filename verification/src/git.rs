//! What the library takes from git2 without touching a repository: the
//! meaning of a file's status bits and the text of a commit id.

use vstd::prelude::*;

verus! {

/// Status bits, as git2's `Status` flags carry them.
pub const INDEX_NEW: u32 = 1;
pub const INDEX_MODIFIED: u32 = 2;
pub const INDEX_DELETED: u32 = 4;
pub const INDEX_RENAMED: u32 = 8;
pub const WT_NEW: u32 = 128;
pub const WT_MODIFIED: u32 = 256;
pub const WT_DELETED: u32 = 512;
pub const WT_RENAMED: u32 = 2048;

/// Whether the status `bits` carry `flag`.
pub open spec fn has_flag(bits: u32, flag: u32) -> bool {
    bits & flag != 0
}

/// `git2::Status::is_index_new` on the status with these bits; its source
/// tests whether `INDEX_NEW` (bit 0) is set.
#[verifier::external_body]
pub(crate) fn is_index_new(bits: u32) -> (r: bool)
    ensures
        r == has_flag(bits, INDEX_NEW),
{
    git2::Status::from_bits_truncate(bits).is_index_new()
}

/// `git2::Status::is_index_modified`: whether `INDEX_MODIFIED` (bit 1) is set.
#[verifier::external_body]
pub(crate) fn is_index_modified(bits: u32) -> (r: bool)
    ensures
        r == has_flag(bits, INDEX_MODIFIED),
{
    git2::Status::from_bits_truncate(bits).is_index_modified()
}

/// `git2::Status::is_index_deleted`: whether `INDEX_DELETED` (bit 2) is set.
#[verifier::external_body]
pub(crate) fn is_index_deleted(bits: u32) -> (r: bool)
    ensures
        r == has_flag(bits, INDEX_DELETED),
{
    git2::Status::from_bits_truncate(bits).is_index_deleted()
}

/// `git2::Status::is_index_renamed`: whether `INDEX_RENAMED` (bit 3) is set.
#[verifier::external_body]
pub(crate) fn is_index_renamed(bits: u32) -> (r: bool)
    ensures
        r == has_flag(bits, INDEX_RENAMED),
{
    git2::Status::from_bits_truncate(bits).is_index_renamed()
}

/// `git2::Status::is_wt_new`: whether `WT_NEW` (bit 7) is set.
#[verifier::external_body]
pub(crate) fn is_wt_new(bits: u32) -> (r: bool)
    ensures
        r == has_flag(bits, WT_NEW),
{
    git2::Status::from_bits_truncate(bits).is_wt_new()
}

/// `git2::Status::is_wt_modified`: whether `WT_MODIFIED` (bit 8) is set.
#[verifier::external_body]
pub(crate) fn is_wt_modified(bits: u32) -> (r: bool)
    ensures
        r == has_flag(bits, WT_MODIFIED),
{
    git2::Status::from_bits_truncate(bits).is_wt_modified()
}

/// `git2::Status::is_wt_deleted`: whether `WT_DELETED` (bit 9) is set.
#[verifier::external_body]
pub(crate) fn is_wt_deleted(bits: u32) -> (r: bool)
    ensures
        r == has_flag(bits, WT_DELETED),
{
    git2::Status::from_bits_truncate(bits).is_wt_deleted()
}

/// `git2::Status::is_wt_renamed`: whether `WT_RENAMED` (bit 11) is set.
#[verifier::external_body]
pub(crate) fn is_wt_renamed(bits: u32) -> (r: bool)
    ensures
        r == has_flag(bits, WT_RENAMED),
{
    git2::Status::from_bits_truncate(bits).is_wt_renamed()
}

/// Merge analysis bits, as git2's `MergeAnalysis` flags carry them.
pub const ANALYSIS_UP_TO_DATE: u32 = 2;
pub const ANALYSIS_FASTFORWARD: u32 = 4;

/// `git2::MergeAnalysis::is_up_to_date` on the analysis with these bits;
/// its source tests whether `ANALYSIS_UP_TO_DATE` (bit 1) is set.
#[verifier::external_body]
pub(crate) fn is_up_to_date(bits: u32) -> (r: bool)
    ensures
        r == has_flag(bits, ANALYSIS_UP_TO_DATE),
{
    git2::MergeAnalysis::from_bits_truncate(bits).is_up_to_date()
}

/// `git2::MergeAnalysis::is_fast_forward`: whether `ANALYSIS_FASTFORWARD`
/// (bit 2) is set.
#[verifier::external_body]
pub(crate) fn is_fast_forward(bits: u32) -> (r: bool)
    ensures
        r == has_flag(bits, ANALYSIS_FASTFORWARD),
{
    git2::MergeAnalysis::from_bits_truncate(bits).is_fast_forward()
}

/// A lowercase hex digit.
pub open spec fn hex_digit(n: int) -> char {
    if n < 10 {
        (48 + n) as char
    } else {
        (87 + n) as char
    }
}

/// Lowercase hex, two digits per byte, high half first.
pub open spec fn hex_lower(b: Seq<u8>) -> Seq<char>
    decreases b.len(),
{
    if b.len() == 0 {
        Seq::empty()
    } else {
        seq![hex_digit(b[0] as int / 16), hex_digit(b[0] as int % 16)] + hex_lower(b.drop_first())
    }
}

/// The hex text has two characters per byte.
pub proof fn lemma_hex_lower_len(b: Seq<u8>)
    ensures
        hex_lower(b).len() == 2 * b.len(),
    decreases b.len(),
{
    if b.len() > 0 {
        lemma_hex_lower_len(b.drop_first());
    }
}

proof fn lemma_hex_digit(n: int)
    requires
        0 <= n < 16,
    ensures
        hex_digit(n) == "0123456789abcdef"@[n],
{
    reveal_strlit("0123456789abcdef");
    let t = "0123456789abcdef"@;
    if n == 0 { assert(t[0] == '0'); assert((48 + 0) as char == '0'); }
    else if n == 1 { assert((48 + 1) as char == '1'); }
    else if n == 2 { assert((48 + 2) as char == '2'); }
    else if n == 3 { assert((48 + 3) as char == '3'); }
    else if n == 4 { assert((48 + 4) as char == '4'); }
    else if n == 5 { assert((48 + 5) as char == '5'); }
    else if n == 6 { assert((48 + 6) as char == '6'); }
    else if n == 7 { assert((48 + 7) as char == '7'); }
    else if n == 8 { assert((48 + 8) as char == '8'); }
    else if n == 9 { assert((48 + 9) as char == '9'); }
    else if n == 10 { assert((87 + 10) as char == 'a'); }
    else if n == 11 { assert((87 + 11) as char == 'b'); }
    else if n == 12 { assert((87 + 12) as char == 'c'); }
    else if n == 13 { assert((87 + 13) as char == 'd'); }
    else if n == 14 { assert((87 + 14) as char == 'e'); }
    else { assert((87 + 15) as char == 'f'); }
}

/// The hex text of some bytes has two characters for each byte, in
/// order: the digit of its high half, then of its low half, each taken
/// from "0123456789abcdef".
pub proof fn law_hex_digits(b: Seq<u8>)
    ensures
        hex_lower(b).len() == 2 * b.len(),
        forall|k: int|
            0 <= k < b.len() ==> hex_lower(b)[2 * k] == "0123456789abcdef"@[(#[trigger] b[k]) as int
                / 16] && hex_lower(b)[2 * k + 1] == "0123456789abcdef"@[b[k] as int % 16],
    decreases b.len(),
{
    lemma_hex_lower_len(b);
    if b.len() > 0 {
        let rest = b.drop_first();
        law_hex_digits(rest);
        let h = hex_lower(b);
        lemma_hex_digit(b[0] as int / 16);
        lemma_hex_digit(b[0] as int % 16);
        assert forall|k: int| 0 <= k < b.len() implies h[2 * k] == "0123456789abcdef"@[(
        #[trigger] b[k]) as int / 16] && h[2 * k + 1] == "0123456789abcdef"@[b[k] as int % 16] by {
            if k > 0 {
                assert(b[k] == rest[k - 1]);
                assert(h[2 * k] == hex_lower(rest)[2 * (k - 1)]);
                assert(h[2 * k + 1] == hex_lower(rest)[2 * (k - 1) + 1]);
            }
        }
    }
}

/// `git2::Oid::from_bytes(bytes)` then `to_string()`: git2 formats an id
/// with libgit2's `git_oid_tostr`, whose source writes each byte as two
/// digits of "0123456789abcdef", high half first. `from_bytes` refuses
/// any length but 20, hence the `requires`.
#[verifier::external_body]
fn oid_text(bytes: &[u8]) -> (r: String)
    requires
        bytes@.len() == 20,
    ensures
        r@ == hex_lower(bytes@),
{
    git2::Oid::from_bytes(bytes).unwrap().to_string()
}

/// The abbreviated commit id shown to the user: the first seven hex digits
/// of the 20-byte id.
pub fn short_hash(oid: &[u8]) -> (r: String)
    requires
        oid@.len() == 20,
    ensures
        r@ == hex_lower(oid@).subrange(0, 7),
{
    let full = oid_text(oid);
    proof {
        lemma_hex_lower_len(oid@);
    }
    let part = full.as_str().substring_char(0, 7);
    String::from_str(part)
}

} // verus!
