//! The rules of a mail session: which messages a listing asks for, and what
//! an empty answer means. The session itself is the caller's.

use crate::text::texts;
use vstd::prelude::*;
use vstd::string::*;

verus! {

/// What can go wrong in a mail session. Failures of the connection carry
/// the words of the library that reported them.
#[derive(Clone, Debug, PartialEq, Eq)]
pub enum Error {
    CreateTlsConnectorError(String),
    CreateImapSession(String),
    ParseEmailError(String),
    /// No message has this uid.
    ReadEmailNotFoundError(String),
    /// The message of this uid has no part of this kind.
    ReadEmailEmptyPartError(String, String),
    /// The message of this uid has no attachment.
    ExtractAttachmentsEmptyError(String),
}

pub ghost enum ErrorView {
    CreateTlsConnectorError(Seq<char>),
    CreateImapSession(Seq<char>),
    ParseEmailError(Seq<char>),
    ReadEmailNotFoundError(Seq<char>),
    ReadEmailEmptyPartError(Seq<char>, Seq<char>),
    ExtractAttachmentsEmptyError(Seq<char>),
}

impl View for Error {
    type V = ErrorView;

    open spec fn view(&self) -> ErrorView {
        match self {
            Error::CreateTlsConnectorError(cause) => ErrorView::CreateTlsConnectorError(cause@),
            Error::CreateImapSession(cause) => ErrorView::CreateImapSession(cause@),
            Error::ParseEmailError(cause) => ErrorView::ParseEmailError(cause@),
            Error::ReadEmailNotFoundError(uid) => ErrorView::ReadEmailNotFoundError(uid@),
            Error::ReadEmailEmptyPartError(uid, mime) => ErrorView::ReadEmailEmptyPartError(
                uid@,
                mime@,
            ),
            Error::ExtractAttachmentsEmptyError(uid) => ErrorView::ExtractAttachmentsEmptyError(
                uid@,
            ),
        }
    }
}

/// A failure in words.
pub open spec fn message_of(error: ErrorView) -> Seq<char> {
    "(imap): "@ + match error {
        ErrorView::CreateTlsConnectorError(cause) => cause,
        ErrorView::CreateImapSession(cause) => cause,
        ErrorView::ParseEmailError(cause) => cause,
        ErrorView::ReadEmailNotFoundError(uid) => "no email found for uid "@ + uid,
        ErrorView::ReadEmailEmptyPartError(uid, mime) => "no "@ + mime
            + " content found for uid "@ + uid,
        ErrorView::ExtractAttachmentsEmptyError(uid) => "no attachment found for uid "@ + uid,
    }
}

impl Error {
    /// The failure in words.
    pub fn message(&self) -> (text: String)
        ensures
            text@ == message_of(self@),
    {
        let mut text = String::from_str("(imap): ");
        match self {
            Error::CreateTlsConnectorError(cause) => {
                text.append(cause.as_str());
            },
            Error::CreateImapSession(cause) => {
                text.append(cause.as_str());
            },
            Error::ParseEmailError(cause) => {
                text.append(cause.as_str());
            },
            Error::ReadEmailNotFoundError(uid) => {
                text.append("no email found for uid ");
                text.append(uid.as_str());
            },
            Error::ReadEmailEmptyPartError(uid, mime) => {
                text.append("no ");
                text.append(mime.as_str());
                text.append(" content found for uid ");
                text.append(uid.as_str());
            },
            Error::ExtractAttachmentsEmptyError(uid) => {
                text.append("no attachment found for uid ");
                text.append(uid.as_str());
            },
        }
        text
    }
}

/// How many messages a listing asks for at most.
pub const PAGE: usize = 20;

/// Texts joined by commas.
pub open spec fn joined(parts: Seq<Seq<char>>) -> Seq<char>
    decreases parts.len(),
{
    if parts.len() == 0 {
        Seq::empty()
    } else if parts.len() == 1 {
        parts[0]
    } else {
        joined(parts.drop_last()) + ","@ + parts.last()
    }
}

/// The set of uids that a listing fetches: the first `PAGE` of those that
/// the search found, in the order in which it gave them.
pub open spec fn uid_set_of(uids: Seq<Seq<char>>) -> Seq<char> {
    joined(
        uids.take(
            if uids.len() < PAGE {
                uids.len() as int
            } else {
                PAGE as int
            },
        ),
    )
}

/// Writes the uids of a listing as a sequence set.
pub fn uid_set(uids: &Vec<String>) -> (set: String)
    ensures
        set@ == uid_set_of(texts(uids@)),
{
    let ghost all = texts(uids@);
    let count = if uids.len() < PAGE {
        uids.len()
    } else {
        PAGE
    };
    let mut set = String::new();
    let mut i: usize = 0;
    while i < count
        invariant
            all == texts(uids@),
            i <= count <= uids.len(),
            set@ == joined(all.take(i as int)),
        decreases count - i,
    {
        if i > 0 {
            set.append(",");
        }
        set.append(uids[i].as_str());
        assert(all.take(i + 1).drop_last() =~= all.take(i as int));
        i += 1;
    }
    set
}

/// The text of a message, once its parts of one kind have been joined.
/// `found` is nothing where no message has the uid.
pub fn read_email_body(uid: &str, mime: &str, found: Option<String>) -> (r: Result<String, Error>)
    ensures
        match found {
            None => r matches Err(e) && e@ == ErrorView::ReadEmailNotFoundError(uid@),
            Some(bodies) => if bodies@.len() == 0 {
                r matches Err(e) && e@ == ErrorView::ReadEmailEmptyPartError(uid@, mime@)
            } else {
                r == Ok::<String, Error>(bodies)
            },
        },
{
    match found {
        None => Err(Error::ReadEmailNotFoundError(String::from_str(uid))),
        Some(bodies) => {
            if bodies.as_str().is_empty() {
                Err(Error::ReadEmailEmptyPartError(String::from_str(uid), String::from_str(mime)))
            } else {
                Ok(bodies)
            }
        },
    }
}

/// A message as it was fetched. `found` is nothing where no message has the
/// uid.
pub fn read_msg(uid: &str, found: Option<Vec<u8>>) -> (r: Result<Vec<u8>, Error>)
    ensures
        match found {
            None => r matches Err(e) && e@ == ErrorView::ReadEmailNotFoundError(uid@),
            Some(bytes) => r == Ok::<Vec<u8>, Error>(bytes),
        },
{
    match found {
        None => Err(Error::ReadEmailNotFoundError(String::from_str(uid))),
        Some(bytes) => Ok(bytes),
    }
}

} // verus!
