//! The verified core of a small desktop Git client: the records it hands
//! to its front end, the decisions taken around each Git operation, and
//! the texts it reports back. The caller does the repository, file and
//! network work; each operation here says what to do next and what to
//! report.

pub mod api;
pub mod clock;
pub mod commit;
pub mod diff;
pub mod errors;
pub mod git;
pub mod history;
pub mod pull;
pub mod records;
pub mod remote;
pub mod retry;
pub mod session;
pub mod status;
pub mod sync;
pub mod text;
pub mod workdir;

pub use clock::relative_time;
pub use records::{ChangedFile, CommitEntry, RemoteRepo};
pub use session::{AppState, Session};
