//! Errors, and who is to blame for them.
use vstd::prelude::*;

verus! {

/// Who caused an error, which decides how it is shown.
#[derive(Clone, Copy, Debug, PartialEq, Eq, Structural)]
pub enum Blame {
    /// The debugger itself.
    Internal,
    /// The user, by what was asked for.
    User,
    /// Nobody: the request came at a moment at which it could not be served.
    Nobody,
}

/// An error with its message. Unless somebody else is blamed, it is internal.
#[derive(Debug)]
pub struct Error {
    pub blame: Blame,
    pub message: String,
}

/// Whether `e` carries this message with this blame.
pub open spec fn says(e: Error, blame: Blame, message: Seq<char>) -> bool {
    e.blame == blame && e.message@ == message
}

/// An internal error with the message `message`.
pub fn str_error(message: &str) -> (e: Error)
    ensures
        says(e, Blame::Internal, message@),
{
    Error { blame: Blame::Internal, message: message.to_owned() }
}

/// The same error, blamed on the user.
pub fn blame_user(e: Error) -> (r: Error)
    ensures
        says(r, Blame::User, e.message@),
{
    Error { blame: Blame::User, message: e.message }
}

/// The same error, blamed on nobody.
pub fn blame_nobody(e: Error) -> (r: Error)
    ensures
        says(r, Blame::Nobody, e.message@),
{
    Error { blame: Blame::Nobody, message: e.message }
}

/// An error says a message with a blame just where it carries both.
pub proof fn law_errors_carry_blame_and_message(e: Error, blame: Blame, message: Seq<char>)
    ensures
        says(e, blame, message) ==> e.blame == blame && e.message@ == message,
        e.blame == blame && e.message@ == message ==> says(e, blame, message),
{
}

}
