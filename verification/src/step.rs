//! Operations that proceed call by call.

use vstd::prelude::*;

verus! {

/// Where an operation stands: waiting for the reply to a call, or done.
#[derive(Debug, Clone, PartialEq, Eq)]
pub enum Step<P, D> {
    /// The call that is to be made next, or the operation that waits for its reply.
    Pending(P),
    /// The operation is over, with this result.
    Done(D),
}

/// What the reply to a call stands for: the value that the call gave, or the message
/// of the failure as a sequence of characters.
pub open spec fn reply_view<T>(reply: Result<T, String>) -> Result<T, Seq<char>> {
    match reply {
        Ok(value) => Ok(value),
        Err(message) => Err(message@),
    }
}

/// The view of a reply keeps its value, and the characters of its message.
pub proof fn law_reply_view_loses_nothing<T>(value: T, message: String)
    ensures
        reply_view(Ok::<T, String>(value)) == Ok::<T, Seq<char>>(value),
        reply_view(Err::<T, String>(message)) == Err::<T, Seq<char>>(message@),
{
}

} // verus!
