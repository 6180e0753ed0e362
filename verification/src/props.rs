//! The property payloads, one shape per request.
//!
//! Every field that a server may leave out is optional here. Whether its
//! absence is a fallback or an error is for the operation to say, not for the
//! parser.

use crate::date_parser::{deserialize, rfc2822_timestamp, LastModified};
use crate::error::ErrorKind;
use crate::multistatus::{child_text, optional_text, Href, Prop};
use crate::outline::{
    child_from, find_child, next_child, node_views, sole_child, Found, Node, NodeView,
};
use crate::text::str_eq;
use vstd::prelude::*;

verus! {

/// A collection's change tag: a token that changes whenever a member record
/// changes. Tags are compared, never read.
#[derive(Clone, Debug, PartialEq, Eq)]
pub struct Ctag {
    pub value: String,
}

impl View for Ctag {
    type V = Seq<char>;

    open spec fn view(&self) -> Seq<char> {
        self.value@
    }
}

impl Ctag {
    /// Whether two tags are the same, byte for byte. Nothing else can be
    /// asked of a tag.
    pub fn same_as(&self, other: &Ctag) -> (same: bool)
        ensures
            same == (self@ == other@),
    {
        str_eq(self.value.as_str(), other.value.as_str())
    }
}

/// A record's tag, of the same kind as a change tag.
#[derive(Clone, Debug, PartialEq, Eq)]
pub struct Etag {
    pub value: String,
}

impl View for Etag {
    type V = Seq<char>;

    open spec fn view(&self) -> Seq<char> {
        self.value@
    }
}

impl Etag {
    /// Whether two tags are the same, byte for byte.
    pub fn same_as(&self, other: &Etag) -> (same: bool)
        ensures
            same == (self@ == other@),
    {
        str_eq(self.value.as_str(), other.value.as_str())
    }
}

/// A record in its own text format.
#[derive(Clone, Debug, PartialEq, Eq)]
pub struct AddressData {
    pub value: String,
}

impl View for AddressData {
    type V = Seq<char>;

    open spec fn view(&self) -> Seq<char> {
        self.value@
    }
}

/// The `href` below the child of `prop` called `name`, where `prop` has that
/// child and the child has an `href`.
pub open spec fn nested_href(nodes: Seq<NodeView>, prop: int, name: Seq<char>) -> Result<
    Option<Seq<char>>,
    ErrorKind,
> {
    match sole_child(nodes, prop, name) {
        Found::Absent => Ok(None),
        Found::One(at) => optional_text(nodes, at as int, "href"@),
        Found::Many => Err(ErrorKind::MalformedResponse),
    }
}

/// Reads the `href` below the child of `prop` called `name`.
pub fn read_nested_href(nodes: &Vec<Node>, prop: usize, name: &str) -> (r: Result<
    Option<Href>,
    ErrorKind,
>)
    requires
        prop < nodes.len(),
    ensures
        match r {
            Ok(Some(href)) => nested_href(node_views(nodes@), prop as int, name@) == Ok::<
                Option<Seq<char>>,
                ErrorKind,
            >(Some(href@)),
            Ok(None) => nested_href(node_views(nodes@), prop as int, name@) == Ok::<
                Option<Seq<char>>,
                ErrorKind,
            >(None),
            Err(e) => nested_href(node_views(nodes@), prop as int, name@) == Err::<
                Option<Seq<char>>,
                ErrorKind,
            >(e),
        },
{
    match find_child(nodes, prop, name) {
        Found::Absent => Ok(None),
        Found::One(at) => match child_text(nodes, at, "href") {
            Ok(Some(value)) => Ok(Some(Href { value })),
            Ok(None) => Ok(None),
            Err(e) => Err(e),
        },
        Found::Many => Err(ErrorKind::MalformedResponse),
    }
}

/// The principal that the credentials belong to.
#[derive(Clone, Debug, PartialEq, Eq)]
pub struct CurrentUserPrincipal {
    pub href: Href,
}

/// The answer to a request for `current-user-principal`.
#[derive(Clone, Debug, PartialEq, Eq)]
pub struct CurrentUserPrincipalProp {
    pub current_user_principal: Option<CurrentUserPrincipal>,
}

impl View for CurrentUserPrincipalProp {
    /// The principal's URL, if the server named one.
    type V = Option<Seq<char>>;

    open spec fn view(&self) -> Option<Seq<char>> {
        match self.current_user_principal {
            Some(principal) => Some(principal.href@),
            None => None,
        }
    }
}

impl Prop for CurrentUserPrincipalProp {
    open spec fn read(nodes: Seq<NodeView>, prop: int) -> Result<Option<Seq<char>>, ErrorKind> {
        nested_href(nodes, prop, "current-user-principal"@)
    }

    fn extract(nodes: &Vec<Node>, prop: usize) -> (r: Result<Self, ErrorKind>) {
        match read_nested_href(nodes, prop, "current-user-principal") {
            Ok(Some(href)) => Ok(
                CurrentUserPrincipalProp {
                    current_user_principal: Some(CurrentUserPrincipal { href }),
                },
            ),
            Ok(None) => Ok(CurrentUserPrincipalProp { current_user_principal: None }),
            Err(e) => Err(e),
        }
    }
}

/// The collection that holds a principal's address books.
#[derive(Clone, Debug, PartialEq, Eq)]
pub struct AddressbookHomeSet {
    pub href: Href,
}

/// The answer to a request for `addressbook-home-set`.
#[derive(Clone, Debug, PartialEq, Eq)]
pub struct AddressbookHomeSetProp {
    pub addressbook_home_set: Option<AddressbookHomeSet>,
}

impl View for AddressbookHomeSetProp {
    /// The home set's URL, if the server named one.
    type V = Option<Seq<char>>;

    open spec fn view(&self) -> Option<Seq<char>> {
        match self.addressbook_home_set {
            Some(home) => Some(home.href@),
            None => None,
        }
    }
}

impl Prop for AddressbookHomeSetProp {
    open spec fn read(nodes: Seq<NodeView>, prop: int) -> Result<Option<Seq<char>>, ErrorKind> {
        nested_href(nodes, prop, "addressbook-home-set"@)
    }

    fn extract(nodes: &Vec<Node>, prop: usize) -> (r: Result<Self, ErrorKind>) {
        match read_nested_href(nodes, prop, "addressbook-home-set") {
            Ok(Some(href)) => Ok(
                AddressbookHomeSetProp { addressbook_home_set: Some(AddressbookHomeSet { href }) },
            ),
            Ok(None) => Ok(AddressbookHomeSetProp { addressbook_home_set: None }),
            Err(e) => Err(e),
        }
    }
}

/// The marker of an address-book collection. Its presence is all it says.
#[derive(Clone, Copy, Debug, PartialEq, Eq, Structural)]
pub struct Addressbook {}

/// What kind of resource an entry is.
#[derive(Clone, Copy, Debug, PartialEq, Eq, Structural)]
pub struct AddressbookResourceType {
    pub addressbook: Option<Addressbook>,
}

/// The answer to a request for `resourcetype`.
#[derive(Clone, Copy, Debug, PartialEq, Eq, Structural)]
pub struct AddressbookProp {
    pub resourcetype: AddressbookResourceType,
}

impl View for AddressbookProp {
    /// Whether the resource is marked as an address book.
    type V = bool;

    open spec fn view(&self) -> bool {
        self.resourcetype.addressbook is Some
    }
}

/// Whether the `resourcetype` below `prop` holds an `addressbook` element.
pub open spec fn has_marker(nodes: Seq<NodeView>, prop: int) -> Result<bool, ErrorKind> {
    match sole_child(nodes, prop, "resourcetype"@) {
        Found::Absent => Ok(false),
        Found::One(at) => Ok(
            child_from(nodes, nodes[at as int].depth, "addressbook"@, at + 1) is Some,
        ),
        Found::Many => Err(ErrorKind::MalformedResponse),
    }
}

impl Prop for AddressbookProp {
    open spec fn read(nodes: Seq<NodeView>, prop: int) -> Result<bool, ErrorKind> {
        has_marker(nodes, prop)
    }

    fn extract(nodes: &Vec<Node>, prop: usize) -> (r: Result<Self, ErrorKind>) {
        match find_child(nodes, prop, "resourcetype") {
            Found::Absent => Ok(
                AddressbookProp { resourcetype: AddressbookResourceType { addressbook: None } },
            ),
            Found::One(at) => {
                let addressbook = match next_child(nodes, nodes[at].depth, "addressbook", at + 1) {
                    Some(_) => Some(Addressbook {  }),
                    None => None,
                };
                Ok(AddressbookProp { resourcetype: AddressbookResourceType { addressbook } })
            },
            Found::Many => Err(ErrorKind::MalformedResponse),
        }
    }
}

/// The answer to a request for a collection's change tag.
#[derive(Clone, Debug, PartialEq, Eq)]
pub struct CtagProp {
    pub getctag: Option<Ctag>,
}

impl View for CtagProp {
    type V = Option<Seq<char>>;

    open spec fn view(&self) -> Option<Seq<char>> {
        match self.getctag {
            Some(tag) => Some(tag@),
            None => None,
        }
    }
}

impl Prop for CtagProp {
    open spec fn read(nodes: Seq<NodeView>, prop: int) -> Result<Option<Seq<char>>, ErrorKind> {
        optional_text(nodes, prop, "getctag"@)
    }

    fn extract(nodes: &Vec<Node>, prop: usize) -> (r: Result<Self, ErrorKind>) {
        match child_text(nodes, prop, "getctag") {
            Ok(Some(value)) => Ok(CtagProp { getctag: Some(Ctag { value }) }),
            Ok(None) => Ok(CtagProp { getctag: None }),
            Err(e) => Err(e),
        }
    }
}

/// The answer to a request for records: the data, the tag and the
/// modification time of one record.
#[derive(Clone, Debug, PartialEq, Eq)]
pub struct AddressDataProp {
    pub address_data: Option<AddressData>,
    pub getetag: Option<Etag>,
    pub getlastmodified: Option<LastModified>,
}

pub ghost struct AddressDataPropView {
    pub address_data: Option<Seq<char>>,
    pub getetag: Option<Seq<char>>,
    pub getlastmodified: Option<LastModified>,
}

impl View for AddressDataProp {
    type V = AddressDataPropView;

    open spec fn view(&self) -> AddressDataPropView {
        AddressDataPropView {
            address_data: match self.address_data {
                Some(data) => Some(data@),
                None => None,
            },
            getetag: match self.getetag {
                Some(tag) => Some(tag@),
                None => None,
            },
            getlastmodified: self.getlastmodified,
        }
    }
}

/// The modification time that a `getlastmodified` text stands for. A text
/// that is no date is an error.
pub open spec fn modified_at(text: Option<Seq<char>>) -> Result<Option<LastModified>, ErrorKind> {
    match text {
        None => Ok(None),
        Some(date) => match rfc2822_timestamp(date) {
            Some(seconds) => Ok(Some(LastModified { value: seconds })),
            None => Err(ErrorKind::DateParse),
        },
    }
}

/// The record payload below `prop`.
pub open spec fn record_payload(nodes: Seq<NodeView>, prop: int) -> Result<
    AddressDataPropView,
    ErrorKind,
> {
    match (
        optional_text(nodes, prop, "address-data"@),
        optional_text(nodes, prop, "getetag"@),
        optional_text(nodes, prop, "getlastmodified"@),
    ) {
        (Ok(address_data), Ok(getetag), Ok(date)) => match modified_at(date) {
            Ok(getlastmodified) => Ok(
                AddressDataPropView { address_data, getetag, getlastmodified },
            ),
            Err(e) => Err(e),
        },
        _ => Err(ErrorKind::MalformedResponse),
    }
}

impl Prop for AddressDataProp {
    open spec fn read(nodes: Seq<NodeView>, prop: int) -> Result<AddressDataPropView, ErrorKind> {
        record_payload(nodes, prop)
    }

    fn extract(nodes: &Vec<Node>, prop: usize) -> (r: Result<Self, ErrorKind>) {
        let data = child_text(nodes, prop, "address-data");
        let tag = child_text(nodes, prop, "getetag");
        let date = child_text(nodes, prop, "getlastmodified");
        match (data, tag, date) {
            (Ok(data), Ok(tag), Ok(date)) => {
                let getlastmodified = match date {
                    Some(text) => match deserialize(text.as_str()) {
                        Ok(stamp) => Some(stamp),
                        Err(e) => {
                            return Err(e);
                        },
                    },
                    None => None,
                };
                let address_data = match data {
                    Some(value) => Some(AddressData { value }),
                    None => None,
                };
                let getetag = match tag {
                    Some(value) => Some(Etag { value }),
                    None => None,
                };
                Ok(AddressDataProp { address_data, getetag, getlastmodified })
            },
            _ => Err(ErrorKind::MalformedResponse),
        }
    }
}

} // verus!
