//! The remote called "origin" and its personal access token: the texts
//! reported when one is missing and the credentials handed to git2.

use vstd::prelude::*;
use vstd::string::*;
use crate::text::{blank, is_blank};

verus! {

/// The refusal of a remote operation without a token; `op` names it.
pub open spec fn no_pat_text(op: Seq<char>) -> Seq<char> {
    "No PAT available for "@ + op
}

/// The refusal when the repository has no remote called "origin".
pub open spec fn no_origin_text() -> Seq<char> {
    "No remote 'origin' configured"@
}

/// The refusal of a remote operation named `op` when `pat` is blank.
pub fn refuse_blank_pat(pat: &str, op: &str) -> (r: Option<String>)
    ensures
        is_blank(pat@) ==> (r matches Some(t) && t@ == no_pat_text(op@)),
        !is_blank(pat@) ==> r is None,
{
    if blank(pat) {
        let mut s = String::from_str("No PAT available for ");
        s.append(op);
        Some(s)
    } else {
        None
    }
}

/// The user name sent with a token over HTTPS, as the hosting service and
/// most tooling expect: any non-empty name works, the token is the
/// password.
pub open spec fn token_user() -> Seq<char> {
    "x-access-token"@
}

/// The refusal sent back to libgit2 when it asks for credentials again:
/// the token was rejected once already.
pub open spec fn rejected_text() -> Seq<char> {
    "Authentication rejected — check that the PAT has write access to this repository"@
}

/// What to answer libgit2 when it asks for credentials.
pub enum CredentialAnswer {
    /// A user name and password, in plain text.
    UserPass { username: String, password: String },
    /// A refusal with this message.
    Refuse(String),
}

pub enum CredentialAnswerView {
    UserPass { username: Seq<char>, password: Seq<char> },
    Refuse(Seq<char>),
}

impl View for CredentialAnswer {
    type V = CredentialAnswerView;

    open spec fn view(&self) -> CredentialAnswerView {
        match self {
            CredentialAnswer::UserPass { username, password } => CredentialAnswerView::UserPass {
                username: username@,
                password: password@,
            },
            CredentialAnswer::Refuse(m) => CredentialAnswerView::Refuse(m@),
        }
    }
}

/// libgit2 asks again after every rejected answer, and answering the same
/// way each time hides the server's real refusal behind a vague libgit2
/// error. Only the first request gets the credentials; every later one is
/// refused.
pub struct CredentialGate {
    asked: bool,
}

impl View for CredentialGate {
    type V = bool;

    closed spec fn view(&self) -> bool {
        self.asked
    }
}

/// The answer to a request for credentials, by whether one was made before.
pub open spec fn credential_answer(asked: bool, pat: Seq<char>) -> CredentialAnswerView {
    if asked {
        CredentialAnswerView::Refuse(rejected_text())
    } else {
        CredentialAnswerView::UserPass { username: token_user(), password: pat }
    }
}

impl CredentialGate {
    /// A gate not asked yet.
    pub fn new() -> (r: Self)
        ensures
            r@ == false,
    {
        CredentialGate { asked: false }
    }

    /// Answers a request for credentials for the token `pat`.
    pub fn answer(&mut self, pat: &str) -> (r: CredentialAnswer)
        ensures
            r@ == credential_answer(old(self)@, pat@),
            final(self)@ == true,
    {
        if self.asked {
            CredentialAnswer::Refuse(
                String::from_str(
                    "Authentication rejected — check that the PAT has write access to this repository",
                ),
            )
        } else {
            self.asked = true;
            CredentialAnswer::UserPass {
                username: String::from_str("x-access-token"),
                password: String::from_str(pat),
            }
        }
    }
}

/// The token is handed out at most once: after the first request, every
/// later one is refused.
pub proof fn law_token_handed_out_once(asked: bool, pat: Seq<char>, later: Seq<char>)
    ensures
        credential_answer(false, pat) == (CredentialAnswerView::UserPass {
            username: token_user(),
            password: pat,
        }),
        credential_answer(true, later) == CredentialAnswerView::Refuse(rejected_text()),
{
}

/// The texts and credentials of a remote operation, spelled out: a blank
/// token is refused with "No PAT available for OP"; the first request for
/// credentials is answered with the user name "x-access-token" and the
/// token as password, and every later one is refused with the rejection
/// text.
pub proof fn law_remote_texts(op: Seq<char>, pat: Seq<char>)
    ensures
        no_pat_text(op) == "No PAT available for "@ + op,
        no_origin_text() == "No remote 'origin' configured"@,
        credential_answer(false, pat) == (CredentialAnswerView::UserPass {
            username: "x-access-token"@,
            password: pat,
        }),
        credential_answer(true, pat) == CredentialAnswerView::Refuse(
            "Authentication rejected — check that the PAT has write access to this repository"@,
        ),
{
}

} // verus!
