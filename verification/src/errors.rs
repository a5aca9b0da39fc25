//! Errors reported by git2, held as plain values, and the texts the
//! library makes of them.

use vstd::prelude::*;
use vstd::string::*;

verus! {

/// The category of a git2 error: git2's `ErrorClass` variant for variant, with `Unclassified` for its `None`.
#[derive(PartialEq, Eq, Structural, Clone, Copy, Debug)]
pub enum ErrClass {
    Unclassified,
    NoMemory,
    Os,
    Invalid,
    Reference,
    Zlib,
    Repository,
    Config,
    Regex,
    Odb,
    Index,
    Object,
    Net,
    Tag,
    Tree,
    Indexer,
    Ssl,
    Submodule,
    Thread,
    Stash,
    Checkout,
    FetchHead,
    Merge,
    Ssh,
    Filter,
    Revert,
    Callback,
    CherryPick,
    Describe,
    Rebase,
    Filesystem,
    Patch,
    Worktree,
    Sha1,
    Http,
}

/// The code of a git2 error (git2's `ErrorCode`, variant for variant).
#[derive(PartialEq, Eq, Structural, Clone, Copy, Debug)]
pub enum ErrCode {
    GenericError,
    NotFound,
    Exists,
    Ambiguous,
    BufSize,
    User,
    BareRepo,
    UnbornBranch,
    Unmerged,
    NotFastForward,
    InvalidSpec,
    Conflict,
    Locked,
    Modified,
    Auth,
    Certificate,
    Applied,
    Peel,
    Eof,
    Invalid,
    Uncommitted,
    Directory,
    MergeConflict,
    HashsumMismatch,
    IndexDirty,
    ApplyFail,
    Owner,
    Timeout,
}

/// An error from git2, as plain values: its class and code as git2's
/// `class()` and `code()` give them, the class's name as `{:?}` writes it,
/// its message, and its text as git2's `to_string()` writes it.
pub struct GitError {
    pub class: ErrClass,
    pub code: ErrCode,
    pub class_name: String,
    pub message: String,
    pub text: String,
}

pub struct GitErrorView {
    pub class: ErrClass,
    pub code: ErrCode,
    pub class_name: Seq<char>,
    pub message: Seq<char>,
    pub text: Seq<char>,
}

impl View for GitError {
    type V = GitErrorView;

    open spec fn view(&self) -> GitErrorView {
        GitErrorView {
            class: self.class,
            code: self.code,
            class_name: self.class_name@,
            message: self.message@,
            text: self.text@,
        }
    }
}

impl Clone for GitError {
    fn clone(&self) -> (r: Self)
        ensures
            r@ == self@,
    {
        GitError {
            class: self.class,
            code: self.code,
            class_name: self.class_name.clone(),
            message: self.message.clone(),
            text: self.text.clone(),
        }
    }
}

/// The error's text, as git2 writes it.
pub open spec fn error_text(e: GitErrorView) -> Seq<char> {
    e.text
}

impl GitError {
    /// The error's text, as git2 writes it.
    pub fn text(&self) -> (r: String)
        ensures
            r@ == error_text(self@),
    {
        self.text.clone()
    }
}

/// A transient lock: an OS-level failure with the generic code, which is
/// how libgit2 reports another program holding a file open.
pub open spec fn is_lock_error(e: GitErrorView) -> bool {
    e.class == ErrClass::Os && e.code == ErrCode::GenericError
}

/// Whether `err` looks like a transient lock held by another program.
pub fn is_transient_lock_error(err: &GitError) -> (r: bool)
    ensures
        r == is_lock_error(err@),
{
    err.class == ErrClass::Os && err.code == ErrCode::GenericError
}

/// The text for a file held by another program.
pub open spec fn locked_text(path: Seq<char>) -> Seq<char> {
    "'"@ + path + "' is locked by another program — close it and try again"@
}

/// What the user is told of a failure on `path`: the friendlier lock text
/// for a transient lock, the error's own text otherwise.
pub open spec fn lock_description(path: Seq<char>, e: GitErrorView) -> Seq<char> {
    if is_lock_error(e) {
        locked_text(path)
    } else {
        error_text(e)
    }
}

/// Describes a failure on `path`.
pub fn describe_lock_error(path: &str, err: &GitError) -> (r: String)
    ensures
        r@ == lock_description(path@, err@),
{
    if is_transient_lock_error(err) {
        let mut s = String::from_str("'");
        s.append(path);
        s.append("' is locked by another program — close it and try again");
        s
    } else {
        err.text()
    }
}

/// The text of a failed network operation: "OP failed (CLASS): MESSAGE".
pub open spec fn network_failure(op: Seq<char>, e: GitErrorView) -> Seq<char> {
    op + " failed ("@ + e.class_name + "): "@ + e.message
}

/// Describes a failed network operation named `op`.
pub fn network_failure_text(op: &str, err: &GitError) -> (r: String)
    ensures
        r@ == network_failure(op@, err@),
{
    let mut s = String::from_str(op);
    s.append(" failed (");
    s.append(err.class_name.as_str());
    s.append("): ");
    s.append(err.message.as_str());
    s
}

/// The view of the result of a git2 call.
pub open spec fn result_view<T>(r: Result<T, GitError>) -> Result<T, GitErrorView> {
    match r {
        Ok(v) => Ok(v),
        Err(e) => Err(e@),
    }
}

/// What the user is told of a git2 failure, spelled out: a transient
/// lock (an OS-level failure with the generic code) on a path reads
/// "'PATH' is locked by another program — close it and try again";
/// anything else reads as git2's own text; a failed network operation
/// reads "OP failed (CLASS): MESSAGE".
pub proof fn law_error_texts(path: Seq<char>, op: Seq<char>, e: GitErrorView)
    ensures
        is_lock_error(e) == (e.class == ErrClass::Os && e.code == ErrCode::GenericError),
        lock_description(path, e) == if e.class == ErrClass::Os && e.code == ErrCode::GenericError {
            "'"@ + path + "' is locked by another program — close it and try again"@
        } else {
            e.text
        },
        error_text(e) == e.text,
        network_failure(op, e) == op + " failed ("@ + e.class_name + "): "@ + e.message,
{
}

} // verus!
