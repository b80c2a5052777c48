//! The allow-list login evaluator. No secret is checked: a username on the
//! list is welcomed, any other is turned away.

use vstd::prelude::*;

verus! {

/// The reply to a login attempt, and to a product submission.
#[derive(Clone, Debug, PartialEq, Eq)]
pub struct LoginResponse {
    pub success: bool,
    pub message: String,
}

/// The usernames that are let in.
pub open spec fn is_allowed_user(username: Seq<char>) -> bool {
    username == "admin"@ || username == "columbia_user"@
}

/// The greeting for an accepted username.
pub open spec fn welcome_message(username: Seq<char>) -> Seq<char> {
    "Welcome back, "@ + username + "!"@
}

/// The message for a refused username.
pub open spec fn rejection_message() -> Seq<char> {
    "Invalid credentials."@
}

/// The decision and message owed for a submitted username.
pub open spec fn login_outcome(username: Seq<char>) -> (bool, Seq<char>) {
    if is_allowed_user(username) {
        (true, welcome_message(username))
    } else {
        (false, rejection_message())
    }
}

/// Decides a login attempt by allow-list membership alone.
pub fn login(username: &str) -> (r: LoginResponse)
    ensures
        (r.success, r.message@) == login_outcome(username@),
{
    let submitted = String::from_str(username);
    let admin = String::from_str("admin");
    let member = String::from_str("columbia_user");
    if submitted == admin || submitted == member {
        let mut message = String::from_str("Welcome back, ");
        message.append(username);
        message.append("!");
        LoginResponse { success: true, message }
    } else {
        LoginResponse { success: false, message: String::from_str("Invalid credentials.") }
    }
}

/// A character sequence occurs in another at some position.
pub open spec fn occurs_in(needle: Seq<char>, hay: Seq<char>) -> bool {
    exists|i: int| 0 <= i && i + needle.len() <= hay.len() && #[trigger] hay.subrange(i, i + needle.len()) == needle
}

/// Every username on the allow-list is accepted with a message that names
/// it; every other username is refused.
pub proof fn lemma_login_decision(username: Seq<char>)
    ensures
        is_allowed_user(username) ==> login_outcome(username).0 && occurs_in(
            username,
            login_outcome(username).1,
        ),
        !is_allowed_user(username) ==> !login_outcome(username).0,
{
    let w = welcome_message(username);
    let start: int = "Welcome back, "@.len() as int;
    assert(w.subrange(start, start + username.len()) =~= username);
}

} // verus!
