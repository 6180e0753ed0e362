//! The multistatus response: one entry per resource, each with the
//! resource's identifier, an optional status line and a property payload
//! whose shape depends on the request.

use crate::error::ErrorKind;
use crate::outline::{
    child_from, element_text, find_child, node_views, outline, outline_of, sole_child, text_of,
    Found, Node,
    NodeKind, NodeView,
};
use crate::text::str_eq;
use crate::xml::{tokenize, tokens_of};
use vstd::prelude::*;

verus! {

/// A resource identifier: a URL, absolute or relative to the server.
#[derive(Clone, Debug, PartialEq, Eq)]
pub struct Href {
    pub value: String,
}

impl View for Href {
    type V = Seq<char>;

    open spec fn view(&self) -> Seq<char> {
        self.value@
    }
}

/// A status line such as `HTTP/1.1 200 OK`, kept as the server wrote it.
#[derive(Clone, Debug, PartialEq, Eq)]
pub struct Status {
    pub value: String,
}

impl View for Status {
    type V = Seq<char>;

    open spec fn view(&self) -> Seq<char> {
        self.value@
    }
}

/// A property payload with the status the server reports for it.
#[derive(Clone, Debug, PartialEq, Eq)]
pub struct Propstat<T> {
    pub prop: T,
    pub status: Option<Status>,
}

pub ghost struct PropstatView<P> {
    pub prop: P,
    pub status: Option<Seq<char>>,
}

impl<T: View> View for Propstat<T> {
    type V = PropstatView<T::V>;

    open spec fn view(&self) -> PropstatView<T::V> {
        PropstatView {
            prop: self.prop@,
            status: match self.status {
                Some(status) => Some(status@),
                None => None,
            },
        }
    }
}

/// What the server says of one resource.
#[derive(Clone, Debug, PartialEq, Eq)]
pub struct Response<T> {
    pub href: Href,
    pub propstat: Propstat<T>,
}

pub ghost struct ResponseView<P> {
    pub href: Seq<char>,
    pub propstat: PropstatView<P>,
}

impl<T: View> View for Response<T> {
    type V = ResponseView<T::V>;

    open spec fn view(&self) -> ResponseView<T::V> {
        ResponseView { href: self.href@, propstat: self.propstat@ }
    }
}

/// A whole response: the entries in the order in which the server sent them.
#[derive(Clone, Debug, PartialEq, Eq)]
pub struct Multistatus<T> {
    pub responses: Vec<Response<T>>,
}

impl<T: View> View for Multistatus<T> {
    type V = Seq<ResponseView<T::V>>;

    open spec fn view(&self) -> Seq<ResponseView<T::V>> {
        Seq::new(self.responses@.len(), |i: int| self.responses@[i]@)
    }
}

/// A shape of property payload: what a request asks for, read from the
/// `prop` element of an entry.
pub trait Prop: View + Sized {
    /// The payload below the element at index `prop` of an outline.
    spec fn read(nodes: Seq<NodeView>, prop: int) -> Result<Self::V, ErrorKind>;

    /// Reads the payload below the element at index `prop`.
    fn extract(nodes: &Vec<Node>, prop: usize) -> (r: Result<Self, ErrorKind>)
        requires
            prop < nodes.len(),
        ensures
            match r {
                Ok(payload) => Self::read(node_views(nodes@), prop as int) == Ok::<
                    Self::V,
                    ErrorKind,
                >(payload@),
                Err(e) => Self::read(node_views(nodes@), prop as int) == Err::<Self::V, ErrorKind>(
                    e,
                ),
            },
    ;
}

/// The text of the child of `parent` called `name`: absent where there is no
/// such child, an error where there are several.
pub open spec fn optional_text(nodes: Seq<NodeView>, parent: int, name: Seq<char>) -> Result<
    Option<Seq<char>>,
    ErrorKind,
> {
    match sole_child(nodes, parent, name) {
        Found::Absent => Ok(None),
        Found::One(at) => Ok(Some(text_of(nodes, at as int))),
        Found::Many => Err(ErrorKind::MalformedResponse),
    }
}

/// Reads the text of the child of `parent` called `name`.
pub fn child_text(nodes: &Vec<Node>, parent: usize, name: &str) -> (r: Result<
    Option<String>,
    ErrorKind,
>)
    requires
        parent < nodes.len(),
    ensures
        match r {
            Ok(Some(text)) => optional_text(node_views(nodes@), parent as int, name@) == Ok::<
                Option<Seq<char>>,
                ErrorKind,
            >(Some(text@)),
            Ok(None) => optional_text(node_views(nodes@), parent as int, name@) == Ok::<
                Option<Seq<char>>,
                ErrorKind,
            >(None),
            Err(e) => optional_text(node_views(nodes@), parent as int, name@) == Err::<
                Option<Seq<char>>,
                ErrorKind,
            >(e),
        },
{
    match find_child(nodes, parent, name) {
        Found::Absent => Ok(None),
        Found::One(at) => Ok(Some(element_text(nodes, at))),
        Found::Many => Err(ErrorKind::MalformedResponse),
    }
}

/// The entry that the `response` element at index `at` holds. The element
/// must have one `href` and one `propstat`, and that one `prop` and at most
/// one `status`; what else it holds is passed over.
pub open spec fn response_at<P: Prop>(nodes: Seq<NodeView>, at: int) -> Result<
    ResponseView<P::V>,
    ErrorKind,
> {
    match (sole_child(nodes, at, "href"@), sole_child(nodes, at, "propstat"@)) {
        (Found::One(href), Found::One(propstat)) => match (
            sole_child(nodes, propstat as int, "prop"@),
            optional_text(nodes, propstat as int, "status"@),
        ) {
            (Found::One(prop), Ok(status)) => match P::read(nodes, prop as int) {
                Ok(payload) => Ok(
                    ResponseView {
                        href: text_of(nodes, href as int),
                        propstat: PropstatView { prop: payload, status },
                    },
                ),
                Err(e) => Err(e),
            },
            _ => Err(ErrorKind::MalformedResponse),
        },
        _ => Err(ErrorKind::MalformedResponse),
    }
}

/// An entry put in front of the entries that follow it, unless either failed.
pub open spec fn entry_then<R>(first: Result<R, ErrorKind>, rest: Result<Seq<R>, ErrorKind>)
    -> Result<Seq<R>, ErrorKind> {
    match first {
        Err(e) => Err(e),
        Ok(entry) => match rest {
            Err(e) => Err(e),
            Ok(entries) => Ok(seq![entry] + entries),
        },
    }
}

/// The entries of the `response` elements that stand directly below the
/// root, from index `from` on, in document order. The first entry that
/// cannot be read fails them all.
pub open spec fn responses_from<P: Prop>(nodes: Seq<NodeView>, from: int) -> Result<
    Seq<ResponseView<P::V>>,
    ErrorKind,
>
    decreases nodes.len() - from,
{
    if from < 0 || from >= nodes.len() || nodes[from].depth <= 0 {
        Ok(Seq::empty())
    } else if nodes[from].depth == 1 && nodes[from].kind == NodeKind::Element
        && nodes[from].value == "response"@ {
        entry_then(response_at::<P>(nodes, from), responses_from::<P>(nodes, from + 1))
    } else {
        responses_from::<P>(nodes, from + 1)
    }
}

/// The entries of an outline whose root is a `multistatus` element.
pub open spec fn entries_of<P: Prop>(nodes: Seq<NodeView>) -> Result<
    Seq<ResponseView<P::V>>,
    ErrorKind,
> {
    if is_multistatus(nodes) {
        responses_from::<P>(nodes, 1)
    } else {
        Err(ErrorKind::MalformedResponse)
    }
}

/// The entries of a response body.
pub open spec fn multistatus_of<P: Prop>(body: Seq<char>) -> Result<
    Seq<ResponseView<P::V>>,
    ErrorKind,
> {
    match tokens_of(body) {
        Some(tokens) => match outline_of(tokens) {
            Some(nodes) => entries_of::<P>(nodes),
            None => Err(ErrorKind::MalformedResponse),
        },
        None => Err(ErrorKind::MalformedResponse),
    }
}

/// An outline that stands for a multistatus document.
pub open spec fn is_multistatus(nodes: Seq<NodeView>) -> bool {
    nodes.len() > 0 && nodes[0].depth == 0 && nodes[0].kind == NodeKind::Element
        && nodes[0].value == "multistatus"@
}

proof fn lemma_no_response_from<P: Prop>(nodes: Seq<NodeView>, from: int)
    requires
        0 <= from,
        child_from(nodes, 0, "response"@, from) is None,
    ensures
        responses_from::<P>(nodes, from) == Ok::<Seq<ResponseView<P::V>>, ErrorKind>(Seq::empty()),
    decreases nodes.len() - from,
{
    if from < nodes.len() && nodes[from].depth > 0 {
        lemma_no_response_from::<P>(nodes, from + 1);
    }
}

/// A multistatus body without a `response` element parses to no entries,
/// whatever the payload shape. It is no error.
pub proof fn lemma_no_response_no_entries<P: Prop>(body: Seq<char>, nodes: Seq<NodeView>)
    requires
        tokens_of(body) matches Some(tokens) && outline_of(tokens) == Some(nodes),
        is_multistatus(nodes),
        child_from(nodes, 0, "response"@, 1) is None,
    ensures
        multistatus_of::<P>(body) == Ok::<Seq<ResponseView<P::V>>, ErrorKind>(Seq::empty()),
{
    lemma_no_response_from::<P>(nodes, 1);
}

/// Reads the entry of the `response` element at index `at`.
pub fn read_response<P: Prop>(nodes: &Vec<Node>, at: usize) -> (r: Result<Response<P>, ErrorKind>)
    requires
        at < nodes.len(),
    ensures
        match r {
            Ok(entry) => response_at::<P>(node_views(nodes@), at as int) == Ok::<
                ResponseView<P::V>,
                ErrorKind,
            >(entry@),
            Err(e) => response_at::<P>(node_views(nodes@), at as int) == Err::<
                ResponseView<P::V>,
                ErrorKind,
            >(e),
        },
{
    let href = find_child(nodes, at, "href");
    let propstat = find_child(nodes, at, "propstat");
    match (href, propstat) {
        (Found::One(href), Found::One(propstat)) => {
            let prop = find_child(nodes, propstat, "prop");
            let status = child_text(nodes, propstat, "status");
            match (prop, status) {
                (Found::One(prop), Ok(status)) => {
                    match P::extract(nodes, prop) {
                        Ok(payload) => {
                            let status = match status {
                                Some(value) => Some(Status { value }),
                                None => None,
                            };
                            Ok(
                                Response {
                                    href: Href { value: element_text(nodes, href) },
                                    propstat: Propstat { prop: payload, status },
                                },
                            )
                        },
                        Err(e) => Err(e),
                    }
                },
                _ => Err(ErrorKind::MalformedResponse),
            }
        },
        _ => Err(ErrorKind::MalformedResponse),
    }
}

impl<T: Prop> Multistatus<T> {
    /// Reads the entries from an outline.
    pub fn from_outline(nodes: &Vec<Node>) -> (r: Result<Self, ErrorKind>)
        ensures
            match r {
                Ok(parsed) => entries_of::<T>(node_views(nodes@)) == Ok::<
                    Seq<ResponseView<T::V>>,
                    ErrorKind,
                >(parsed@),
                Err(e) => entries_of::<T>(node_views(nodes@)) == Err::<
                    Seq<ResponseView<T::V>>,
                    ErrorKind,
                >(e),
            },
    {
        let ghost all = node_views(nodes@);
        if nodes.len() == 0 {
            return Err(ErrorKind::MalformedResponse);
        }
        if !(nodes[0].depth == 0 && nodes[0].kind == NodeKind::Element && str_eq(
            nodes[0].value.as_str(),
            "multistatus",
        )) {
            return Err(ErrorKind::MalformedResponse);
        }
        let mut responses: Vec<Response<T>> = Vec::new();
        let mut at: usize = 1;
        while at < nodes.len()
            invariant
                all == node_views(nodes@),
                1 <= at,
                match responses_from::<T>(all, at as int) {
                    Ok(rest) => entries_of::<T>(all) == Ok::<Seq<ResponseView<T::V>>, ErrorKind>(
                        Seq::new(responses@.len(), |i: int| responses@[i]@) + rest,
                    ),
                    Err(e) => entries_of::<T>(all) == Err::<Seq<ResponseView<T::V>>, ErrorKind>(e),
                },
            decreases nodes.len() - at,
        {
            let node = &nodes[at];
            if node.depth == 0 {
                let parsed = Multistatus { responses };
                return Ok(parsed);
            }
            if node.depth == 1 && node.kind == NodeKind::Element && str_eq(
                node.value.as_str(),
                "response",
            ) {
                let ghost front = Seq::new(responses@.len(), |i: int| responses@[i]@);
                match read_response::<T>(nodes, at) {
                    Ok(entry) => {
                        responses.push(entry);
                        proof {
                            let now = Seq::new(responses@.len(), |i: int| responses@[i]@);
                            match responses_from::<T>(all, at + 1) {
                                Ok(rest) => {
                                    assert(front + (seq![entry@] + rest) =~= now + rest);
                                },
                                Err(_) => {},
                            }
                        }
                    },
                    Err(e) => {
                        return Err(e);
                    },
                }
            }
            at += 1;
        }
        let parsed = Multistatus { responses };
        Ok(parsed)
    }

    /// Parses a response body.
    pub fn parse(body: &str) -> (r: Result<Self, ErrorKind>)
        ensures
            match r {
                Ok(parsed) => multistatus_of::<T>(body@) == Ok::<
                    Seq<ResponseView<T::V>>,
                    ErrorKind,
                >(parsed@),
                Err(e) => multistatus_of::<T>(body@) == Err::<Seq<ResponseView<T::V>>, ErrorKind>(
                    e,
                ),
            },
    {
        let tokens = match tokenize(body) {
            Ok(tokens) => tokens,
            Err(e) => {
                return Err(e);
            },
        };
        let nodes = match outline(&tokens) {
            Ok(nodes) => nodes,
            Err(e) => {
                return Err(e);
            },
        };
        Self::from_outline(&nodes)
    }
}

} // verus!
