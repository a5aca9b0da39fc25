//! The in-memory session: who is signed in, with which token, on which
//! repository. Nothing of it is ever written to disk.

use vstd::prelude::*;
use vstd::string::*;

verus! {

/// What the front end remembers between commands.
pub struct Session {
    pub repo_path: String,
    pub username: String,
    /// The personal access token.
    pub pat: String,
    pub author_name: String,
    pub author_email: String,
}

pub struct SessionView {
    pub repo_path: Seq<char>,
    pub username: Seq<char>,
    pub pat: Seq<char>,
    pub author_name: Seq<char>,
    pub author_email: Seq<char>,
}

impl View for Session {
    type V = SessionView;

    open spec fn view(&self) -> SessionView {
        SessionView {
            repo_path: self.repo_path@,
            username: self.username@,
            pat: self.pat@,
            author_name: self.author_name@,
            author_email: self.author_email@,
        }
    }
}

impl Clone for Session {
    fn clone(&self) -> (r: Self)
        ensures
            r@ == self@,
    {
        Session {
            repo_path: self.repo_path.clone(),
            username: self.username.clone(),
            pat: self.pat.clone(),
            author_name: self.author_name.clone(),
            author_email: self.author_email.clone(),
        }
    }
}

impl Default for Session {
    fn default() -> (r: Self)
        ensures
            r@ == (SessionView {
                repo_path: Seq::empty(),
                username: Seq::empty(),
                pat: Seq::empty(),
                author_name: Seq::empty(),
                author_email: Seq::empty(),
            }),
    {
        Session {
            repo_path: String::new(),
            username: String::new(),
            pat: String::new(),
            author_name: String::new(),
            author_email: String::new(),
        }
    }
}

/// The application's state: at most one session.
pub struct AppState {
    session: Option<Session>,
}

/// The session that a stored value holds, by its view.
pub open spec fn session_view(s: Option<Session>) -> Option<SessionView> {
    match s {
        Some(x) => Some(x@),
        None => None,
    }
}

impl View for AppState {
    type V = Option<SessionView>;

    closed spec fn view(&self) -> Option<SessionView> {
        session_view(self.session)
    }
}

/// The state after saving `s`.
pub open spec fn after_save(state: Option<SessionView>, s: SessionView) -> Option<SessionView> {
    Some(s)
}

/// The state after clearing.
pub open spec fn after_clear(state: Option<SessionView>) -> Option<SessionView> {
    None
}

/// What reading the state gives back.
pub open spec fn read(state: Option<SessionView>) -> Option<SessionView> {
    state
}

impl Default for AppState {
    fn default() -> (r: Self)
        ensures
            r@ == None::<SessionView>,
    {
        AppState { session: None }
    }
}

impl AppState {
    /// A state with no session.
    pub fn new() -> (r: Self)
        ensures
            r@ == None::<SessionView>,
    {
        AppState { session: None }
    }

    /// Stores `session` in place of any earlier one and hands it back.
    pub fn save_session(&mut self, session: Session) -> (r: Session)
        ensures
            final(self)@ == after_save(old(self)@, session@),
            r@ == session@,
    {
        self.session = Some(session.clone());
        session
    }

    /// The stored session, if any.
    pub fn get_session(&self) -> (r: Option<Session>)
        ensures
            session_view(r) == read(self@),
    {
        match &self.session {
            Some(s) => Some(s.clone()),
            None => None,
        }
    }

    /// Forgets the stored session.
    pub fn clear_session(&mut self)
        ensures
            final(self)@ == after_clear(old(self)@),
    {
        self.session = None;
    }
}

/// Reading after a save gives back the saved session, whatever was stored
/// before.
pub proof fn law_read_after_save(state: Option<SessionView>, s: SessionView)
    ensures
        read(after_save(state, s)) == Some(s),
{
}

/// Reading after a clear gives nothing back.
pub proof fn law_read_after_clear(state: Option<SessionView>)
    ensures
        read(after_clear(state)) == None::<SessionView>,
{
}

/// The last save wins: saving twice is saving the second session.
pub proof fn law_save_overwrites(state: Option<SessionView>, a: SessionView, b: SessionView)
    ensures
        after_save(after_save(state, a), b) == after_save(state, b),
{
}

/// A save after a clear is a plain save.
pub proof fn law_clear_then_save(state: Option<SessionView>, s: SessionView)
    ensures
        after_save(after_clear(state), s) == after_save(state, s),
{
}

} // verus!
