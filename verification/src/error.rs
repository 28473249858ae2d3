//! The boundary's error taxonomy and the last-error channel.
//!
//! Foreign callers cannot receive a Rust `Result` across the boundary, so
//! every fallible entry point reports failure through a sentinel return
//! value and stores the error in a per-thread slot.  The slot itself is
//! modelled here as an explicit [`ErrorChannel`] value; the embedding
//! program keeps one such value per thread.

use vstd::prelude::*;

verus! {

/// Every error that an entry point can report across the boundary.
///
/// Engine and JSON failures are carried as their display text: the foreign
/// caller only ever sees a message string, so that is what is stored.
#[derive(Debug, Clone, PartialEq, Eq)]
pub enum Error {
    /// An unexpected NULL parameter was passed; holds the parameter name.
    NullParameter(String),
    /// A parameter held bytes that are not valid UTF-8; holds the parameter name.
    Utf8(String),
    /// An error occurred while parsing a JSON string; holds the message.
    Json(String),
    /// An error occurred while using the engine; holds the message.
    Sdk(String),
}

/// The display text of an error, as the boundary's error query reports it.
pub open spec fn message_spec(e: Error) -> Seq<char> {
    match e {
        Error::NullParameter(name) => "Unexpected NULL parameter "@ + name@,
        Error::Utf8(name) => "Invalid UTF-8 in parameter "@ + name@,
        Error::Json(msg) => msg@,
        Error::Sdk(msg) => msg@,
    }
}

impl Error {
    /// Renders the error as the text that the boundary's error query returns.
    pub fn message(&self) -> (r: String)
        ensures
            r@ == message_spec(*self),
    {
        match self {
            Error::NullParameter(name) => String::from_str("Unexpected NULL parameter ").concat(
                name.as_str(),
            ),
            Error::Utf8(name) => String::from_str("Invalid UTF-8 in parameter ").concat(
                name.as_str(),
            ),
            Error::Json(msg) => msg.clone(),
            Error::Sdk(msg) => msg.clone(),
        }
    }
}

/// A caller-contract violation always carries a readable message.
pub proof fn lemma_parameter_errors_have_text(e: Error)
    requires
        e is NullParameter || e is Utf8,
    ensures
        message_spec(e).len() > 0,
{
    reveal_strlit("Unexpected NULL parameter ");
    reveal_strlit("Invalid UTF-8 in parameter ");
}

/// The text that a query of the channel's pending error returns.
pub open spec fn last_message_spec(ch: ErrorChannel) -> Option<Seq<char>> {
    match ch.last() {
        Some(e) => Some(message_spec(e)),
        None => None,
    }
}

/// One thread's last-error slot.
///
/// It holds at most one pending error.  Any failing operation overwrites
/// it; a successful operation never clears it.  The embedding program keeps
/// one channel per thread, so an error set on one thread is invisible to
/// another thread's query.
pub struct ErrorChannel {
    slot: Option<Error>,
}

impl ErrorChannel {
    /// The error currently pending in the slot, if any.
    pub closed spec fn last(&self) -> Option<Error> {
        self.slot
    }

    /// A fresh channel with no pending error.
    pub fn new() -> (r: ErrorChannel)
        ensures
            r.last() is None,
    {
        ErrorChannel { slot: None }
    }

    /// Stores `e` in the slot, overwriting any prior value.
    pub fn set_last(&mut self, e: Error)
        ensures
            final(self).last() == Some(e),
    {
        self.slot = Some(e);
    }

    /// The display text of the pending error, without clearing it.
    ///
    /// The result is a function of the channel's state alone and the
    /// channel is not changed, so repeated queries without an intervening
    /// failing operation all return the same text.
    pub fn last_message(&self) -> (r: Option<String>)
        ensures
            r is Some <==> last_message_spec(*self) is Some,
            r is Some ==> r.unwrap()@ == last_message_spec(*self).unwrap(),
    {
        match &self.slot {
            Some(e) => Some(e.message()),
            None => None,
        }
    }

    /// Removes and returns the pending error, leaving the slot empty.
    pub fn take_last(&mut self) -> (r: Option<Error>)
        ensures
            r == old(self).last(),
            final(self).last() is None,
    {
        self.slot.take()
    }
}

/// Reading the last message is idempotent: any two results that satisfy
/// the query's contract against the same channel state carry the same text.
pub proof fn lemma_last_message_idempotent(
    ch: ErrorChannel,
    r1: Option<Seq<char>>,
    r2: Option<Seq<char>>,
)
    requires
        r1 == last_message_spec(ch),
        r2 == last_message_spec(ch),
    ensures
        r1 == r2,
{
}

} // verus!
