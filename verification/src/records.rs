//! The records handed to the front end: changed files, commits, remote
//! repositories, and their mathematical views.

use vstd::prelude::*;
use vstd::string::*;

verus! {

/// One entry of the commit history (or the commit just made).
pub struct CommitEntry {
    /// The first seven hex digits of the commit id.
    pub hash: String,
    pub message: String,
    /// How long ago the commit was made, in words.
    pub time_ago: String,
}

pub struct CommitEntryView {
    pub hash: Seq<char>,
    pub message: Seq<char>,
    pub time_ago: Seq<char>,
}

impl View for CommitEntry {
    type V = CommitEntryView;

    open spec fn view(&self) -> CommitEntryView {
        CommitEntryView { hash: self.hash@, message: self.message@, time_ago: self.time_ago@ }
    }
}

impl Clone for CommitEntry {
    fn clone(&self) -> (r: Self)
        ensures
            r@ == self@,
    {
        CommitEntry {
            hash: self.hash.clone(),
            message: self.message.clone(),
            time_ago: self.time_ago.clone(),
        }
    }
}

impl Default for CommitEntry {
    fn default() -> (r: Self)
        ensures
            r@.hash == Seq::<char>::empty(),
            r@.message == Seq::<char>::empty(),
            r@.time_ago == Seq::<char>::empty(),
    {
        CommitEntry { hash: String::new(), message: String::new(), time_ago: String::new() }
    }
}

/// A file of the working tree that differs from the index or from HEAD.
pub struct ChangedFile {
    pub path: String,
    /// One of "new", "modified", "deleted", "renamed", "changed".
    pub status: String,
}

pub struct ChangedFileView {
    pub path: Seq<char>,
    pub status: Seq<char>,
}

impl View for ChangedFile {
    type V = ChangedFileView;

    open spec fn view(&self) -> ChangedFileView {
        ChangedFileView { path: self.path@, status: self.status@ }
    }
}

impl Clone for ChangedFile {
    fn clone(&self) -> (r: Self)
        ensures
            r@ == self@,
    {
        ChangedFile { path: self.path.clone(), status: self.status.clone() }
    }
}

/// A repository of the signed-in user on the hosting service.
pub struct RemoteRepo {
    pub name: String,
    pub full_name: String,
    pub clone_url: String,
    pub private: bool,
}

pub struct RemoteRepoView {
    pub name: Seq<char>,
    pub full_name: Seq<char>,
    pub clone_url: Seq<char>,
    pub private: bool,
}

impl View for RemoteRepo {
    type V = RemoteRepoView;

    open spec fn view(&self) -> RemoteRepoView {
        RemoteRepoView {
            name: self.name@,
            full_name: self.full_name@,
            clone_url: self.clone_url@,
            private: self.private,
        }
    }
}

impl Clone for RemoteRepo {
    fn clone(&self) -> (r: Self)
        ensures
            r@ == self@,
    {
        RemoteRepo {
            name: self.name.clone(),
            full_name: self.full_name.clone(),
            clone_url: self.clone_url.clone(),
            private: self.private,
        }
    }
}

} // verus!
