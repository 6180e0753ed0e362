//! The outline of a document: its elements and texts in document order, each
//! with the depth at which it stands.
//!
//! An outline is a tree written flat. What lies below a node are the nodes
//! that follow it with a greater depth, up to the first that has none.

use crate::error::ErrorKind;
use crate::text::{after, str_eq, texts};
use crate::xml::{token_views, Token, TokenView};
use vstd::prelude::*;
use vstd::string::*;

verus! {

#[derive(Clone, Copy, Debug, PartialEq, Eq, Structural)]
pub enum NodeKind {
    Element,
    Text,
}

/// An element, with its local name as `value`, or a piece of text.
#[derive(Clone, Debug, PartialEq, Eq)]
pub struct Node {
    /// How many elements enclose the node.
    pub depth: usize,
    pub kind: NodeKind,
    pub value: String,
}

pub ghost struct NodeView {
    pub depth: int,
    pub kind: NodeKind,
    pub value: Seq<char>,
}

impl View for Node {
    type V = NodeView;

    open spec fn view(&self) -> NodeView {
        NodeView { depth: self.depth as int, kind: self.kind, value: self.value@ }
    }
}

pub open spec fn node_views(nodes: Seq<Node>) -> Seq<NodeView> {
    Seq::new(nodes.len(), |i: int| nodes[i]@)
}

/// The outline of the tokens from `at` on, read inside the elements `open`
/// (outermost first). There is none where an end tag does not close the
/// innermost open element, where text stands outside every element, or where
/// an element is left open.
pub open spec fn outline_from(tokens: Seq<TokenView>, at: int, open: Seq<Seq<char>>) -> Option<
    Seq<NodeView>,
>
    decreases tokens.len() - at,
{
    if at < 0 || at >= tokens.len() {
        if open.len() == 0 {
            Some(Seq::empty())
        } else {
            None
        }
    } else {
        match tokens[at] {
            TokenView::Open(name) => after(
                seq![NodeView { depth: open.len() as int, kind: NodeKind::Element, value: name }],
                outline_from(tokens, at + 1, open.push(name)),
            ),
            TokenView::Leaf(name) => after(
                seq![NodeView { depth: open.len() as int, kind: NodeKind::Element, value: name }],
                outline_from(tokens, at + 1, open),
            ),
            TokenView::Close(name) => if open.len() > 0 && open.last() == name {
                outline_from(tokens, at + 1, open.drop_last())
            } else {
                None
            },
            TokenView::Text(text) => if open.len() > 0 {
                after(
                    seq![NodeView { depth: open.len() as int, kind: NodeKind::Text, value: text }],
                    outline_from(tokens, at + 1, open),
                )
            } else {
                None
            },
        }
    }
}

/// The outline of a whole token sequence.
pub open spec fn outline_of(tokens: Seq<TokenView>) -> Option<Seq<NodeView>> {
    outline_from(tokens, 0, Seq::empty())
}

/// What makes a sequence of nodes a tree written flat: no node stands more
/// than one level below the node before it, and none above the top.
pub open spec fn is_well_nested(nodes: Seq<NodeView>) -> bool {
    &&& forall|i: int| 0 <= i < nodes.len() ==> (#[trigger] nodes[i]).depth >= 0
    &&& forall|i: int|
        0 <= i < nodes.len() - 1 ==> (#[trigger] nodes[i + 1]).depth <= nodes[i].depth + 1
}

proof fn lemma_outline_from_is_well_nested(tokens: Seq<TokenView>, at: int, open: Seq<Seq<char>>)
    requires
        0 <= at,
        outline_from(tokens, at, open) is Some,
    ensures
        is_well_nested(outline_from(tokens, at, open)->0),
        outline_from(tokens, at, open)->0.len() > 0 ==> outline_from(tokens, at, open)->0[0].depth
            <= open.len(),
    decreases tokens.len() - at,
{
    if at < tokens.len() {
        let nodes = outline_from(tokens, at, open)->0;
        match tokens[at] {
            TokenView::Open(name) => {
                lemma_outline_from_is_well_nested(tokens, at + 1, open.push(name));
                let rest = outline_from(tokens, at + 1, open.push(name))->0;
                assert forall|i: int| 0 <= i < nodes.len() - 1 implies (#[trigger] nodes[i
                    + 1]).depth <= nodes[i].depth + 1 by {
                    if i > 0 {
                        assert(nodes[i + 1] == rest[i - 1 + 1]);
                    }
                }
            },
            TokenView::Close(name) => {
                lemma_outline_from_is_well_nested(tokens, at + 1, open.drop_last());
            },
            _ => {
                lemma_outline_from_is_well_nested(tokens, at + 1, open);
                let rest = outline_from(tokens, at + 1, open)->0;
                assert forall|i: int| 0 <= i < nodes.len() - 1 implies (#[trigger] nodes[i
                    + 1]).depth <= nodes[i].depth + 1 by {
                    if i > 0 {
                        assert(nodes[i + 1] == rest[i - 1 + 1]);
                    }
                }
            },
        }
    }
}

/// An outline is a tree written flat, and its first node is a root.
pub proof fn lemma_outline_is_well_nested(tokens: Seq<TokenView>)
    requires
        outline_of(tokens) is Some,
    ensures
        is_well_nested(outline_of(tokens)->0),
        outline_of(tokens)->0.len() > 0 ==> outline_of(tokens)->0[0].depth == 0,
{
    lemma_outline_from_is_well_nested(tokens, 0, Seq::empty());
}

/// Lays tokens out as an outline, checking that the tags nest.
pub fn outline(tokens: &Vec<Token>) -> (r: Result<Vec<Node>, ErrorKind>)
    ensures
        match r {
            Ok(nodes) => outline_of(token_views(tokens@)) == Some(node_views(nodes@)),
            Err(e) => e == ErrorKind::MalformedResponse && outline_of(token_views(tokens@))
                is None,
        },
{
    let mut nodes: Vec<Node> = Vec::new();
    let mut open: Vec<String> = Vec::new();
    let mut at: usize = 0;
    let ghost all = token_views(tokens@);
    assert(texts(open@) =~= Seq::<Seq<char>>::empty());
    while at < tokens.len()
        invariant
            all == token_views(tokens@),
            at <= tokens.len(),
            outline_of(all) == after(
                node_views(nodes@),
                outline_from(all, at as int, texts(open@)),
            ),
        decreases tokens.len() - at,
    {
        let ghost names = texts(open@);
        match &tokens[at] {
            Token::Open(name) => {
                let depth = open.len();
                nodes.push(Node { depth, kind: NodeKind::Element, value: name.clone() });
                open.push(name.clone());
                assert(texts(open@) =~= names.push(name@));
            },
            Token::Leaf(name) => {
                let depth = open.len();
                nodes.push(Node { depth, kind: NodeKind::Element, value: name.clone() });
            },
            Token::Close(name) => {
                match open.pop() {
                    Some(top) => {
                        if !str_eq(top.as_str(), name.as_str()) {
                            return Err(ErrorKind::MalformedResponse);
                        }
                        assert(texts(open@) =~= names.drop_last());
                    },
                    None => {
                        return Err(ErrorKind::MalformedResponse);
                    },
                }
            },
            Token::Text(text) => {
                let depth = open.len();
                if depth == 0 {
                    return Err(ErrorKind::MalformedResponse);
                }
                nodes.push(Node { depth, kind: NodeKind::Text, value: text.clone() });
            },
        }
        at += 1;
    }
    if open.len() != 0 {
        return Err(ErrorKind::MalformedResponse);
    }
    Ok(nodes)
}

/// How often a parent has a child of some name.
#[derive(Clone, Copy, Debug, PartialEq, Eq, Structural)]
pub enum Found {
    Absent,
    /// Once, at this index of the outline.
    One(usize),
    Many,
}

/// The first element called `name` that stands directly below a node of
/// depth `depth`, looking from index `from` up to where that node ends.
pub open spec fn child_from(nodes: Seq<NodeView>, depth: int, name: Seq<char>, from: int) -> Option<
    int,
>
    decreases nodes.len() - from,
{
    if from < 0 || from >= nodes.len() || nodes[from].depth <= depth {
        None
    } else if nodes[from].depth == depth + 1 && nodes[from].kind == NodeKind::Element
        && nodes[from].value == name {
        Some(from)
    } else {
        child_from(nodes, depth, name, from + 1)
    }
}

/// The child of `parent` called `name`, if `parent` has exactly one.
pub open spec fn sole_child(nodes: Seq<NodeView>, parent: int, name: Seq<char>) -> Found {
    match child_from(nodes, nodes[parent].depth, name, parent + 1) {
        None => Found::Absent,
        Some(first) => match child_from(nodes, nodes[parent].depth, name, first + 1) {
            None => Found::One(first as usize),
            Some(_) => Found::Many,
        },
    }
}

/// The texts that stand directly below a node of depth `depth`, joined in
/// document order, looking from index `from` up to where that node ends.
pub open spec fn text_from(nodes: Seq<NodeView>, depth: int, from: int) -> Seq<char>
    decreases nodes.len() - from,
{
    if from < 0 || from >= nodes.len() || nodes[from].depth <= depth {
        Seq::empty()
    } else if nodes[from].depth == depth + 1 && nodes[from].kind == NodeKind::Text {
        nodes[from].value + text_from(nodes, depth, from + 1)
    } else {
        text_from(nodes, depth, from + 1)
    }
}

/// The text of the element at index `element`.
pub open spec fn text_of(nodes: Seq<NodeView>, element: int) -> Seq<char> {
    text_from(nodes, nodes[element].depth, element + 1)
}

/// Looks for the first child called `name` of a node of depth `depth`, from
/// index `from` on.
pub fn next_child(nodes: &Vec<Node>, depth: usize, name: &str, from: usize) -> (at: Option<usize>)
    ensures
        match at {
            Some(i) => child_from(node_views(nodes@), depth as int, name@, from as int) == Some(
                i as int,
            ) && from <= i < nodes.len(),
            None => child_from(node_views(nodes@), depth as int, name@, from as int) is None,
        },
{
    let ghost all = node_views(nodes@);
    let mut i: usize = from;
    while i < nodes.len()
        invariant
            all == node_views(nodes@),
            from <= i,
            child_from(all, depth as int, name@, from as int) == child_from(
                all,
                depth as int,
                name@,
                i as int,
            ),
        decreases nodes.len() - i,
    {
        let node = &nodes[i];
        if node.depth <= depth {
            return None;
        }
        if node.depth - 1 == depth && node.kind == NodeKind::Element && str_eq(
            node.value.as_str(),
            name,
        ) {
            return Some(i);
        }
        i += 1;
    }
    None
}

/// Looks for the child of `parent` called `name`.
pub fn find_child(nodes: &Vec<Node>, parent: usize, name: &str) -> (found: Found)
    requires
        parent < nodes.len(),
    ensures
        found == sole_child(node_views(nodes@), parent as int, name@),
        found matches Found::One(at) ==> parent < at < nodes.len(),
{
    let depth = nodes[parent].depth;
    match next_child(nodes, depth, name, parent + 1) {
        None => Found::Absent,
        Some(first) => match next_child(nodes, depth, name, first + 1) {
            None => Found::One(first),
            Some(_) => Found::Many,
        },
    }
}

/// Collects the text of the element at index `element`.
pub fn element_text(nodes: &Vec<Node>, element: usize) -> (text: String)
    requires
        element < nodes.len(),
    ensures
        text@ == text_of(node_views(nodes@), element as int),
{
    let ghost all = node_views(nodes@);
    let depth = nodes[element].depth;
    let mut text = String::new();
    let mut i: usize = element + 1;
    while i < nodes.len()
        invariant
            all == node_views(nodes@),
            element < i,
            text_of(all, element as int) == text@ + text_from(all, depth as int, i as int),
            depth == all[element as int].depth,
        decreases nodes.len() - i,
    {
        let node = &nodes[i];
        if node.depth <= depth {
            return text;
        }
        if node.depth - 1 == depth && node.kind == NodeKind::Text {
            text.append(node.value.as_str());
        }
        i += 1;
    }
    text
}

} // verus!
