//! The requests of a cycle. This crate only describes them; sending is the
//! caller's part.

use crate::error::Step;
use vstd::prelude::*;
use vstd::string::*;

verus! {

/// The verbs of the protocol. A cycle uses two of them: one asks for
/// properties, the other for whole records in bulk. The others read and
/// write single records.
#[derive(Clone, Copy, Debug, PartialEq, Eq, Structural)]
pub enum Method {
    Propfind,
    Report,
    Get,
    Put,
    Delete,
}

/// How far below the target a request reaches.
#[derive(Clone, Copy, Debug, PartialEq, Eq, Structural)]
pub enum Depth {
    /// The target alone.
    Target,
    /// The target and what it holds.
    Members,
}

/// What the server is to check before it carries a request out.
#[derive(Clone, Debug, PartialEq, Eq)]
pub enum Condition {
    /// Nothing.
    Always,
    /// That the target does not exist yet.
    Absent,
    /// That the target still has this tag.
    Tagged(String),
}

pub ghost enum ConditionView {
    Always,
    Absent,
    Tagged(Seq<char>),
}

impl View for Condition {
    type V = ConditionView;

    open spec fn view(&self) -> ConditionView {
        match self {
            Condition::Always => ConditionView::Always,
            Condition::Absent => ConditionView::Absent,
            Condition::Tagged(tag) => ConditionView::Tagged(tag@),
        }
    }
}

/// A request, ready to be sent.
#[derive(Clone, Debug, PartialEq, Eq)]
pub struct Request {
    pub method: Method,
    pub url: String,
    pub depth: Depth,
    pub condition: Condition,
    pub body: String,
}

pub ghost struct RequestView {
    pub method: Method,
    pub url: Seq<char>,
    pub depth: Depth,
    pub condition: ConditionView,
    pub body: Seq<char>,
}

impl View for Request {
    type V = RequestView;

    open spec fn view(&self) -> RequestView {
        RequestView {
            method: self.method,
            url: self.url@,
            depth: self.depth,
            condition: self.condition@,
            body: self.body@,
        }
    }
}

/// Records are asked for in bulk, everything else as properties.
pub open spec fn method_of(step: Step) -> Method {
    match step {
        Step::Records => Method::Report,
        _ => Method::Propfind,
    }
}

/// The collection is looked for among the members of the home set, and the
/// records among the members of the collection.
pub open spec fn depth_of(step: Step) -> Depth {
    match step {
        Step::Collection => Depth::Members,
        Step::Records => Depth::Members,
        _ => Depth::Target,
    }
}

/// The body of each request: the properties it asks for.
pub open spec fn body_of(step: Step) -> Seq<char> {
    match step {
        Step::Principal =>
            "<D:propfind xmlns:D=\"DAV:\"><D:prop><D:current-user-principal/></D:prop></D:propfind>"@,
        Step::HomeSet =>
            "<D:propfind xmlns:D=\"DAV:\" xmlns:C=\"urn:ietf:params:xml:ns:carddav\"><D:prop><C:addressbook-home-set/></D:prop></D:propfind>"@,
        Step::Collection =>
            "<D:propfind xmlns:D=\"DAV:\"><D:prop><D:resourcetype/></D:prop></D:propfind>"@,
        Step::ChangeTag =>
            "<D:propfind xmlns:D=\"DAV:\" xmlns:CS=\"http://calendarserver.org/ns/\"><D:prop><CS:getctag/></D:prop></D:propfind>"@,
        Step::Records =>
            "<C:addressbook-query xmlns:D=\"DAV:\" xmlns:C=\"urn:ietf:params:xml:ns:carddav\"><D:prop><D:getetag/><D:getlastmodified/><C:address-data/></D:prop></C:addressbook-query>"@,
    }
}

/// The request of a step, addressed to `path` on `host`.
pub open spec fn request_of(step: Step, host: Seq<char>, path: Seq<char>) -> RequestView {
    RequestView {
        method: method_of(step),
        url: host + path,
        depth: depth_of(step),
        condition: ConditionView::Always,
        body: body_of(step),
    }
}

impl Method {
    /// The verb as it goes on the wire.
    pub fn name(&self) -> (verb: &'static str)
        ensures
            verb@ == match self {
                Method::Propfind => "PROPFIND"@,
                Method::Report => "REPORT"@,
                Method::Get => "GET"@,
                Method::Put => "PUT"@,
                Method::Delete => "DELETE"@,
            },
    {
        match self {
            Method::Propfind => "PROPFIND",
            Method::Report => "REPORT",
            Method::Get => "GET",
            Method::Put => "PUT",
            Method::Delete => "DELETE",
        }
    }
}

impl Depth {
    /// The value of the `Depth` header.
    pub fn header(&self) -> (value: &'static str)
        ensures
            value@ == match self {
                Depth::Target => "0"@,
                Depth::Members => "1"@,
            },
    {
        match self {
            Depth::Target => "0",
            Depth::Members => "1",
        }
    }
}

impl Request {
    /// Builds the request of a step.
    pub fn new(step: Step, host: &str, path: &str) -> (request: Request)
        ensures
            request@ == request_of(step, host@, path@),
    {
        let mut url = String::from_str(host);
        url.append(path);
        let (method, depth, body) = match step {
            Step::Principal => (
                Method::Propfind,
                Depth::Target,
                "<D:propfind xmlns:D=\"DAV:\"><D:prop><D:current-user-principal/></D:prop></D:propfind>",
            ),
            Step::HomeSet => (
                Method::Propfind,
                Depth::Target,
                "<D:propfind xmlns:D=\"DAV:\" xmlns:C=\"urn:ietf:params:xml:ns:carddav\"><D:prop><C:addressbook-home-set/></D:prop></D:propfind>",
            ),
            Step::Collection => (
                Method::Propfind,
                Depth::Members,
                "<D:propfind xmlns:D=\"DAV:\"><D:prop><D:resourcetype/></D:prop></D:propfind>",
            ),
            Step::ChangeTag => (
                Method::Propfind,
                Depth::Target,
                "<D:propfind xmlns:D=\"DAV:\" xmlns:CS=\"http://calendarserver.org/ns/\"><D:prop><CS:getctag/></D:prop></D:propfind>",
            ),
            Step::Records => (
                Method::Report,
                Depth::Members,
                "<C:addressbook-query xmlns:D=\"DAV:\" xmlns:C=\"urn:ietf:params:xml:ns:carddav\"><D:prop><D:getetag/><D:getlastmodified/><C:address-data/></D:prop></C:addressbook-query>",
            ),
        };
        Request { method, url, depth, condition: Condition::Always, body: String::from_str(body) }
    }
}

} // verus!
