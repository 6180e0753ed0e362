//! What can go wrong in a synchronisation cycle, and at which request.

use vstd::prelude::*;
use vstd::string::*;

verus! {

/// The kinds of hard failure. A property that a discovery step does not find
/// is none of them: that step falls back to the path it was given.
#[derive(Clone, Copy, Debug, PartialEq, Eq, Structural)]
pub enum ErrorKind {
    /// What the cycle asked of the outside could not be done: a request could
    /// not be sent, no response body came back, or the local state could not
    /// be written down.
    Transport,
    /// The response body is not a multistatus document.
    MalformedResponse,
    /// A property without which the cycle cannot go on is absent.
    MissingRequiredProperty,
    /// A record's modification time is not a date.
    DateParse,
}

/// The requests of a synchronisation cycle, in the order in which they go out.
#[derive(Clone, Copy, Debug, PartialEq, Eq, Structural)]
pub enum Step {
    /// Asking for the current user's principal.
    Principal,
    /// Asking for the principal's address-book home set.
    HomeSet,
    /// Asking which collection of the home set is an address book.
    Collection,
    /// Asking for the collection's change tag.
    ChangeTag,
    /// Asking for the collection's records.
    Records,
}

/// A hard failure, with the request at which it happened.
#[derive(Clone, Copy, Debug, PartialEq, Eq, Structural)]
pub struct Error {
    pub kind: ErrorKind,
    pub step: Step,
}

/// The words with which a message begins.
pub open spec fn opening(kind: ErrorKind) -> Seq<char> {
    match kind {
        ErrorKind::Transport => "cannot send "@,
        ErrorKind::MalformedResponse => "cannot parse "@,
        ErrorKind::MissingRequiredProperty => "missing property in "@,
        ErrorKind::DateParse => "invalid date in "@,
    }
}

/// What a step asks for, in words.
pub open spec fn subject(step: Step) -> Seq<char> {
    match step {
        Step::Principal => "current user principal"@,
        Step::HomeSet => "addressbook home set"@,
        Step::Collection => "addressbook"@,
        Step::ChangeTag => "ctag"@,
        Step::Records => "address data"@,
    }
}

/// The word with which a message ends: what was sent fails as a request,
/// what came back as a response.
pub open spec fn closing(kind: ErrorKind) -> Seq<char> {
    match kind {
        ErrorKind::Transport => " request"@,
        _ => " response"@,
    }
}

impl Error {
    /// The failure in words, such as `cannot parse addressbook response`.
    pub fn message(&self) -> (text: String)
        ensures
            text@ == opening(self.kind) + subject(self.step) + closing(self.kind),
    {
        let mut text = String::from_str(
            match self.kind {
                ErrorKind::Transport => "cannot send ",
                ErrorKind::MalformedResponse => "cannot parse ",
                ErrorKind::MissingRequiredProperty => "missing property in ",
                ErrorKind::DateParse => "invalid date in ",
            },
        );
        text.append(
            match self.step {
                Step::Principal => "current user principal",
                Step::HomeSet => "addressbook home set",
                Step::Collection => "addressbook",
                Step::ChangeTag => "ctag",
                Step::Records => "address data",
            },
        );
        text.append(
            match self.kind {
                ErrorKind::Transport => " request",
                _ => " response",
            },
        );
        text
    }
}

} // verus!
