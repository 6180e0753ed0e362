//! The discovery chain: from a path the caller knows to the address-book
//! collection, in three property requests. Each step takes the path that the
//! step before resolved.
//!
//! What a step finds is optional. A step that finds nothing keeps the path it
//! was given; only a response that does not parse is an error.

use crate::error::{Error, Step};
use crate::multistatus::{multistatus_of, Multistatus, Response, ResponseView};
use crate::props::{AddressbookHomeSetProp, AddressbookProp, CurrentUserPrincipalProp};
use crate::text::{ends_with, is_suffix};
use vstd::prelude::*;

verus! {

/// The URL that the first entry names, if there is an entry and it names one.
pub open spec fn first_href(entries: Seq<ResponseView<Option<Seq<char>>>>) -> Option<Seq<char>> {
    if entries.len() > 0 {
        entries[0].propstat.prop
    } else {
        None
    }
}

/// A status line reports success where it ends in `200 OK`, letter for
/// letter. No other code counts.
pub open spec fn is_success(status: Option<Seq<char>>) -> bool {
    match status {
        Some(line) => is_suffix("200 OK"@, line),
        None => false,
    }
}

/// An entry that stands for an address book: reported with success, and
/// marked as one.
pub open spec fn is_addressbook(entry: ResponseView<bool>) -> bool {
    is_success(entry.propstat.status) && entry.propstat.prop
}

/// The index of the first address book among the entries from `from` on.
pub open spec fn first_addressbook(entries: Seq<ResponseView<bool>>, from: int) -> Option<int>
    decreases entries.len() - from,
{
    if from < 0 || from >= entries.len() {
        None
    } else if is_addressbook(entries[from]) {
        Some(from)
    } else {
        first_addressbook(entries, from + 1)
    }
}

/// The identifier of the first entry that is an address book.
pub open spec fn addressbook_href(entries: Seq<ResponseView<bool>>) -> Option<Seq<char>> {
    match first_addressbook(entries, 0) {
        Some(at) => Some(entries[at].href),
        None => None,
    }
}

/// What a step resolves to: what it found, or else the path it was given.
pub open spec fn or_path(found: Option<Seq<char>>, path: Seq<char>) -> Seq<char> {
    match found {
        Some(url) => url,
        None => path,
    }
}

/// The principal's URL in a parsed response.
pub fn current_user_principal(response: &Multistatus<CurrentUserPrincipalProp>) -> (found: Option<
    String,
>)
    ensures
        match found {
            Some(url) => first_href(response@) == Some(url@),
            None => first_href(response@) is None,
        },
{
    if response.responses.len() > 0 {
        match &response.responses[0].propstat.prop.current_user_principal {
            Some(principal) => Some(principal.href.value.clone()),
            None => None,
        }
    } else {
        None
    }
}

/// The URL of the address-book home set in a parsed response.
pub fn addressbook_home_set(response: &Multistatus<AddressbookHomeSetProp>) -> (found: Option<
    String,
>)
    ensures
        match found {
            Some(url) => first_href(response@) == Some(url@),
            None => first_href(response@) is None,
        },
{
    if response.responses.len() > 0 {
        match &response.responses[0].propstat.prop.addressbook_home_set {
            Some(home) => Some(home.href.value.clone()),
            None => None,
        }
    } else {
        None
    }
}

/// Whether an entry stands for an address book.
pub fn entry_is_addressbook(entry: &Response<AddressbookProp>) -> (hit: bool)
    ensures
        hit == is_addressbook(entry@),
{
    let valid_status = match &entry.propstat.status {
        Some(status) => ends_with(status.value.as_str(), "200 OK"),
        None => false,
    };
    let has_addressbook = entry.propstat.prop.resourcetype.addressbook.is_some();
    valid_status && has_addressbook
}

/// The URL of the address-book collection in a parsed response: the
/// identifier of the first entry that is an address book.
pub fn addressbook(response: &Multistatus<AddressbookProp>) -> (found: Option<String>)
    ensures
        match found {
            Some(url) => addressbook_href(response@) == Some(url@),
            None => addressbook_href(response@) is None,
        },
{
    let mut at: usize = 0;
    while at < response.responses.len()
        invariant
            first_addressbook(response@, 0) == first_addressbook(response@, at as int),
        decreases response.responses.len() - at,
    {
        if entry_is_addressbook(&response.responses[at]) {
            return Some(response.responses[at].href.value.clone());
        }
        at += 1;
    }
    None
}

/// What a step resolves to.
pub fn resolve(found: Option<String>, path: String) -> (url: String)
    ensures
        url@ == or_path(
            match found {
                Some(url) => Some(url@),
                None => None,
            },
            path@,
        ),
{
    match found {
        Some(url) => url,
        None => path,
    }
}

/// Step one, on a parsed response: the principal's URL, or else `path`.
pub fn resolve_current_user_principal(
    path: String,
    response: &Multistatus<CurrentUserPrincipalProp>,
) -> (url: String)
    ensures
        url@ == or_path(first_href(response@), path@),
{
    resolve(current_user_principal(response), path)
}

/// Step two, on a parsed response: the URL of the address-book home set, or
/// else `path`.
pub fn resolve_addressbook_home_set(
    path: String,
    response: &Multistatus<AddressbookHomeSetProp>,
) -> (url: String)
    ensures
        url@ == or_path(first_href(response@), path@),
{
    resolve(addressbook_home_set(response), path)
}

/// Step three, on a parsed response: the URL of the address-book collection,
/// or else `path`.
pub fn resolve_addressbook(path: String, response: &Multistatus<AddressbookProp>) -> (url: String)
    ensures
        url@ == or_path(addressbook_href(response@), path@),
{
    resolve(addressbook(response), path)
}

/// The principal's URL in a response body.
pub open spec fn principal_in(body: Seq<char>) -> Result<Option<Seq<char>>, Error> {
    match multistatus_of::<CurrentUserPrincipalProp>(body) {
        Ok(entries) => Ok(first_href(entries)),
        Err(kind) => Err(Error { kind, step: Step::Principal }),
    }
}

/// The home set's URL in a response body.
pub open spec fn home_set_in(body: Seq<char>) -> Result<Option<Seq<char>>, Error> {
    match multistatus_of::<AddressbookHomeSetProp>(body) {
        Ok(entries) => Ok(first_href(entries)),
        Err(kind) => Err(Error { kind, step: Step::HomeSet }),
    }
}

/// The collection's URL in a response body.
pub open spec fn addressbook_in(body: Seq<char>) -> Result<Option<Seq<char>>, Error> {
    match multistatus_of::<AddressbookProp>(body) {
        Ok(entries) => Ok(addressbook_href(entries)),
        Err(kind) => Err(Error { kind, step: Step::Collection }),
    }
}

/// What a step resolves to, unless its response failed to parse.
pub open spec fn resolved(found: Result<Option<Seq<char>>, Error>, path: Seq<char>) -> Result<
    Seq<char>,
    Error,
> {
    match found {
        Ok(found) => Ok(or_path(found, path)),
        Err(error) => Err(error),
    }
}

/// The principal's URL that a response body gives.
pub open spec fn current_user_principal_url(path: Seq<char>, body: Seq<char>) -> Result<
    Seq<char>,
    Error,
> {
    resolved(principal_in(body), path)
}

/// The home set's URL that a response body gives.
pub open spec fn addressbook_home_set_url(path: Seq<char>, body: Seq<char>) -> Result<
    Seq<char>,
    Error,
> {
    resolved(home_set_in(body), path)
}

/// The collection's URL that a response body gives.
pub open spec fn addressbook_url(path: Seq<char>, body: Seq<char>) -> Result<Seq<char>, Error> {
    resolved(addressbook_in(body), path)
}

/// Looks for the principal's URL in the body of the response to the
/// principal request.
pub fn find_current_user_principal(body: &str) -> (r: Result<Option<String>, Error>)
    ensures
        match r {
            Ok(Some(url)) => principal_in(body@) == Ok::<Option<Seq<char>>, Error>(Some(url@)),
            Ok(None) => principal_in(body@) == Ok::<Option<Seq<char>>, Error>(None),
            Err(e) => principal_in(body@) == Err::<Option<Seq<char>>, Error>(e),
        },
{
    match Multistatus::<CurrentUserPrincipalProp>::parse(body) {
        Ok(response) => Ok(current_user_principal(&response)),
        Err(kind) => Err(Error { kind, step: Step::Principal }),
    }
}

/// Looks for the home set's URL in the body of the response to the home-set
/// request.
pub fn find_addressbook_home_set(body: &str) -> (r: Result<Option<String>, Error>)
    ensures
        match r {
            Ok(Some(url)) => home_set_in(body@) == Ok::<Option<Seq<char>>, Error>(Some(url@)),
            Ok(None) => home_set_in(body@) == Ok::<Option<Seq<char>>, Error>(None),
            Err(e) => home_set_in(body@) == Err::<Option<Seq<char>>, Error>(e),
        },
{
    match Multistatus::<AddressbookHomeSetProp>::parse(body) {
        Ok(response) => Ok(addressbook_home_set(&response)),
        Err(kind) => Err(Error { kind, step: Step::HomeSet }),
    }
}

/// Looks for the collection's URL in the body of the response to the
/// collection request.
pub fn find_addressbook(body: &str) -> (r: Result<Option<String>, Error>)
    ensures
        match r {
            Ok(Some(url)) => addressbook_in(body@) == Ok::<Option<Seq<char>>, Error>(Some(url@)),
            Ok(None) => addressbook_in(body@) == Ok::<Option<Seq<char>>, Error>(None),
            Err(e) => addressbook_in(body@) == Err::<Option<Seq<char>>, Error>(e),
        },
{
    match Multistatus::<AddressbookProp>::parse(body) {
        Ok(response) => Ok(addressbook(&response)),
        Err(kind) => Err(Error { kind, step: Step::Collection }),
    }
}

/// Step one, on the body of the response to the principal request. A body
/// that does not parse is an error; a missing property is not.
pub fn fetch_current_user_principal_url(path: String, body: &str) -> (r: Result<String, Error>)
    ensures
        match r {
            Ok(url) => current_user_principal_url(path@, body@) == Ok::<Seq<char>, Error>(url@),
            Err(e) => current_user_principal_url(path@, body@) == Err::<Seq<char>, Error>(e),
        },
{
    match find_current_user_principal(body) {
        Ok(found) => Ok(resolve(found, path)),
        Err(error) => Err(error),
    }
}

/// Step two, on the body of the response to the home-set request.
pub fn fetch_addressbook_home_set_url(path: String, body: &str) -> (r: Result<String, Error>)
    ensures
        match r {
            Ok(url) => addressbook_home_set_url(path@, body@) == Ok::<Seq<char>, Error>(url@),
            Err(e) => addressbook_home_set_url(path@, body@) == Err::<Seq<char>, Error>(e),
        },
{
    match find_addressbook_home_set(body) {
        Ok(found) => Ok(resolve(found, path)),
        Err(error) => Err(error),
    }
}

/// Step three, on the body of the response to the collection request.
pub fn fetch_addressbook_url(path: String, body: &str) -> (r: Result<String, Error>)
    ensures
        match r {
            Ok(url) => addressbook_url(path@, body@) == Ok::<Seq<char>, Error>(url@),
            Err(e) => addressbook_url(path@, body@) == Err::<Seq<char>, Error>(e),
        },
{
    match find_addressbook(body) {
        Ok(found) => Ok(resolve(found, path)),
        Err(error) => Err(error),
    }
}

/// Step one keeps the path it was given where the response has a single
/// entry and that entry does not hold the property.
pub proof fn lemma_absent_principal_keeps_path(path: Seq<char>, body: Seq<char>)
    requires
        multistatus_of::<CurrentUserPrincipalProp>(body) matches Ok(entries) && entries.len() == 1
            && entries[0].propstat.prop is None,
    ensures
        current_user_principal_url(path, body) == Ok::<Seq<char>, Error>(path),
{
}

/// Step two keeps the path it was given where the response has a single
/// entry and that entry does not hold the property.
pub proof fn lemma_absent_home_set_keeps_path(path: Seq<char>, body: Seq<char>)
    requires
        multistatus_of::<AddressbookHomeSetProp>(body) matches Ok(entries) && entries.len() == 1
            && entries[0].propstat.prop is None,
    ensures
        addressbook_home_set_url(path, body) == Ok::<Seq<char>, Error>(path),
{
}

/// Where no entry is both reported with success and marked as an address
/// book, step three keeps the path.
pub proof fn lemma_no_addressbook_keeps_path(path: Seq<char>, entries: Seq<ResponseView<bool>>)
    requires
        forall|i: int| 0 <= i < entries.len() ==> !is_addressbook(#[trigger] entries[i]),
    ensures
        or_path(addressbook_href(entries), path) == path,
{
    lemma_none_before(entries, 0, entries.len() as int);
}

/// Step three resolves to the first address book in the order of the
/// response, whatever follows it.
pub proof fn lemma_first_addressbook_wins(
    path: Seq<char>,
    entries: Seq<ResponseView<bool>>,
    at: int,
)
    requires
        0 <= at < entries.len(),
        is_addressbook(entries[at]),
        forall|i: int| 0 <= i < at ==> !is_addressbook(#[trigger] entries[i]),
    ensures
        or_path(addressbook_href(entries), path) == entries[at].href,
{
    lemma_none_before(entries, 0, at);
}

proof fn lemma_none_before(entries: Seq<ResponseView<bool>>, from: int, to: int)
    requires
        0 <= from <= to <= entries.len(),
        forall|i: int| from <= i < to ==> !is_addressbook(#[trigger] entries[i]),
    ensures
        first_addressbook(entries, from) == first_addressbook(entries, to),
    decreases to - from,
{
    if from < to {
        lemma_none_before(entries, from + 1, to);
    }
}

} // verus!
