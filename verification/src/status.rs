//! From the status of each path in the working tree to the list of changed
//! files shown to the user.

use vstd::prelude::*;
use vstd::string::*;
use crate::git::{
    has_flag, is_index_deleted, is_index_modified, is_index_new, is_index_renamed, is_wt_deleted,
    is_wt_modified, is_wt_new, is_wt_renamed, INDEX_DELETED, INDEX_MODIFIED, INDEX_NEW,
    INDEX_RENAMED, WT_DELETED, WT_MODIFIED, WT_NEW, WT_RENAMED,
};
use crate::records::{ChangedFile, ChangedFileView};

verus! {

/// How the working tree's status is asked for.
pub struct StatusQuery {
    pub include_untracked: bool,
    pub recurse_untracked_dirs: bool,
    pub include_ignored: bool,
}

/// New files are listed, inside new directories too; files matched by the
/// repository's own ignore rules never are.
pub fn status_query() -> (q: StatusQuery)
    ensures
        q.include_untracked,
        q.recurse_untracked_dirs,
        !q.include_ignored,
{
    StatusQuery { include_untracked: true, recurse_untracked_dirs: true, include_ignored: false }
}

/// The word for a status: new before modified before deleted before
/// renamed, whether the change is in the working tree or in the index;
/// anything else is "changed".
pub open spec fn status_label(bits: u32) -> Seq<char> {
    if has_flag(bits, WT_NEW) || has_flag(bits, INDEX_NEW) {
        "new"@
    } else if has_flag(bits, WT_MODIFIED) || has_flag(bits, INDEX_MODIFIED) {
        "modified"@
    } else if has_flag(bits, WT_DELETED) || has_flag(bits, INDEX_DELETED) {
        "deleted"@
    } else if has_flag(bits, WT_RENAMED) || has_flag(bits, INDEX_RENAMED) {
        "renamed"@
    } else {
        "changed"@
    }
}

/// The word for the status `bits`.
pub fn label_of(bits: u32) -> (r: String)
    ensures
        r@ == status_label(bits),
{
    if is_wt_new(bits) || is_index_new(bits) {
        String::from_str("new")
    } else if is_wt_modified(bits) || is_index_modified(bits) {
        String::from_str("modified")
    } else if is_wt_deleted(bits) || is_index_deleted(bits) {
        String::from_str("deleted")
    } else if is_wt_renamed(bits) || is_index_renamed(bits) {
        String::from_str("renamed")
    } else {
        String::from_str("changed")
    }
}

/// One entry of a status listing: its path (absent when the path is not
/// valid UTF-8) and its status bits.
pub struct StatusEntry {
    pub path: Option<String>,
    pub bits: u32,
}

pub struct StatusEntryView {
    pub path: Option<Seq<char>>,
    pub bits: u32,
}

impl View for StatusEntry {
    type V = StatusEntryView;

    open spec fn view(&self) -> StatusEntryView {
        StatusEntryView {
            path: match self.path {
                Some(p) => Some(p@),
                None => None,
            },
            bits: self.bits,
        }
    }
}

pub open spec fn entry_views(s: Seq<StatusEntry>) -> Seq<StatusEntryView> {
    s.map_values(|e: StatusEntry| e@)
}

pub open spec fn file_views(s: Seq<ChangedFile>) -> Seq<ChangedFileView> {
    s.map_values(|f: ChangedFile| f@)
}

/// The changed files of a listing, in its order: each entry with a path,
/// labelled by its status; entries without a path are left out.
pub open spec fn changed_of(entries: Seq<StatusEntryView>) -> Seq<ChangedFileView>
    decreases entries.len(),
{
    if entries.len() == 0 {
        Seq::empty()
    } else {
        let before = changed_of(entries.drop_last());
        let e = entries.last();
        match e.path {
            Some(p) => before.push(ChangedFileView { path: p, status: status_label(e.bits) }),
            None => before,
        }
    }
}

/// The changed files of a status listing.
pub fn changed_files(entries: &Vec<StatusEntry>) -> (r: Vec<ChangedFile>)
    ensures
        file_views(r@) == changed_of(entry_views(entries@)),
{
    let mut out: Vec<ChangedFile> = Vec::new();
    let n = entries.len();
    let mut i: usize = 0;
    while i < n
        invariant
            n == entries@.len(),
            i <= n,
            file_views(out@) == changed_of(entry_views(entries@).take(i as int)),
        decreases n - i,
    {
        let e = &entries[i];
        proof {
            assert(entry_views(entries@).take(i + 1).drop_last() =~= entry_views(entries@).take(
                i as int,
            ));
        }
        match &e.path {
            Some(p) => {
                let f = ChangedFile { path: p.clone(), status: label_of(e.bits) };
                out.push(f);
                proof {
                    assert(file_views(out@) =~= changed_of(entry_views(entries@).take(i as int)).push(
                        f@,
                    ));
                }
            },
            None => {},
        }
        i = i + 1;
    }
    proof {
        assert(entry_views(entries@).take(n as int) =~= entry_views(entries@));
    }
    out
}

/// A status listing shows, in its order, one file for every entry that
/// has a path and none for an entry without one; the file's word is "new"
/// when the entry is new in the working tree or the index, else
/// "modified", "deleted" or "renamed" in that order, else "changed".
pub proof fn law_changed_files_list_entries(entries: Seq<StatusEntryView>, e: StatusEntryView)
    ensures
        changed_of(Seq::empty()) == Seq::<ChangedFileView>::empty(),
        changed_of(entries.push(e)) == match e.path {
            Some(p) => changed_of(entries).push(
                ChangedFileView {
                    path: p,
                    status: if e.bits & 128 != 0 || e.bits & 1 != 0 {
                        "new"@
                    } else if e.bits & 256 != 0 || e.bits & 2 != 0 {
                        "modified"@
                    } else if e.bits & 512 != 0 || e.bits & 4 != 0 {
                        "deleted"@
                    } else if e.bits & 2048 != 0 || e.bits & 8 != 0 {
                        "renamed"@
                    } else {
                        "changed"@
                    },
                },
            ),
            None => changed_of(entries),
        },
{
    assert(entries.push(e).drop_last() =~= entries);
}

} // verus!
