//! Tokens of an XML document.
//!
//! `quick_xml` cuts the document into events and resolves character and
//! entity references. Each event is read by a fresh reader over the input
//! that is left, so that an event depends on nothing but the bytes it is
//! read from. Everything else is done here: which events count, what an
//! element's name is, and when the document as a whole is acceptable.

use crate::error::ErrorKind;
use crate::text::{after, utf8_text};
use quick_xml::events::Event::{CData, Empty, End, Eof, Start, Text};
use quick_xml::reader::Reader;
use vstd::prelude::*;
use vstd::slice::*;
use vstd::utf8::*;

verus! {

/// What an event is.
#[derive(Clone, Copy, Debug, PartialEq, Eq, Structural)]
pub enum EventKind {
    /// A start tag.
    Open,
    /// An end tag.
    Close,
    /// An empty-element tag.
    Leaf,
    /// Character data, references not yet resolved.
    Text,
    /// A CDATA section.
    Literal,
    /// A comment, a declaration, a processing instruction or a doctype.
    Other,
    /// The input holds no further event.
    End,
    /// The input is not XML at this point.
    Malformed,
}

/// One event as the reader hands it out.
#[derive(Clone, Debug, PartialEq, Eq)]
pub struct RawEvent {
    pub kind: EventKind,
    /// The event's content without its delimiters: for a tag the name and the
    /// attributes, for text the characters as written.
    pub raw: Vec<u8>,
    /// How many bytes of the input the reader has not taken.
    pub rest: usize,
}

pub ghost struct RawEventView {
    pub kind: EventKind,
    pub raw: Seq<u8>,
    pub rest: int,
}

impl View for RawEvent {
    type V = RawEventView;

    open spec fn view(&self) -> RawEventView {
        RawEventView { kind: self.kind, raw: self.raw@, rest: self.rest as int }
    }
}

/// A token of a document: a tag with its local name, or text.
#[derive(Clone, Debug, PartialEq, Eq)]
pub enum Token {
    Open(String),
    Close(String),
    Leaf(String),
    Text(String),
}

pub ghost enum TokenView {
    Open(Seq<char>),
    Close(Seq<char>),
    Leaf(Seq<char>),
    Text(Seq<char>),
}

impl View for Token {
    type V = TokenView;

    open spec fn view(&self) -> TokenView {
        match self {
            Token::Open(name) => TokenView::Open(name@),
            Token::Close(name) => TokenView::Close(name@),
            Token::Leaf(name) => TokenView::Leaf(name@),
            Token::Text(text) => TokenView::Text(text@),
        }
    }
}

pub open spec fn token_views(tokens: Seq<Token>) -> Seq<TokenView> {
    Seq::new(tokens.len(), |i: int| tokens[i]@)
}

/// The first event that `quick_xml` reads from `input`, with surrounding
/// white space trimmed from text and end tags accepted without a start tag:
/// which kind of event it is, the bytes that the event holds, and how many
/// bytes of `input` the reader has left untouched.
pub uninterp spec fn xml_first_event(input: Seq<u8>) -> RawEventView;

/// `quick_xml::escape::unescape` of `raw`: the text with its references
/// resolved, or nothing where one of them is not known.
pub uninterp spec fn xml_unescaped(raw: Seq<char>) -> Option<Seq<char>>;

/// `quick_xml::Reader::read_event`, on a reader that `Reader::from_reader`
/// makes over `input`, set to accept an end tag without its start tag and to
/// trim text. `kind` tells the variant that came back, an error being
/// `Malformed`; `raw` is what the event dereferences to; `rest` is the
/// length of what `Reader::get_ref` still holds.
///
/// The contract gives all this a name and says no more: nothing is claimed
/// of what the event is, only that the same input gives the same event.
#[verifier::external_body]
pub(crate) fn first_event(input: &[u8]) -> (event: RawEvent)
    ensures
        event@ == xml_first_event(input@),
{
    let mut reader = Reader::from_reader(input);
    reader.config_mut().allow_unmatched_ends = true;
    reader.config_mut().trim_text(true);
    let got = reader.read_event();
    let kind = match &got {
        Ok(Start(_)) => EventKind::Open,
        Ok(End(_)) => EventKind::Close,
        Ok(Empty(_)) => EventKind::Leaf,
        Ok(Text(_)) => EventKind::Text,
        Ok(CData(_)) => EventKind::Literal,
        Ok(Eof) => EventKind::End,
        Ok(_) => EventKind::Other,
        Err(_) => EventKind::Malformed,
    };
    RawEvent { kind, raw: got.as_deref().unwrap_or_default().to_vec(), rest: reader.get_ref().len() }
}

/// `quick_xml::escape::unescape`, an error turned into nothing. The contract
/// gives the result a name and says no more.
#[verifier::external_body]
pub(crate) fn unescape(raw: &str) -> (text: Option<String>)
    ensures
        match text {
            Some(t) => xml_unescaped(raw@) == Some(t@),
            None => xml_unescaped(raw@) is None,
        },
{
    quick_xml::escape::unescape(raw).ok().map(|t| t.into_owned())
}

/// The white space of XML.
pub open spec fn is_xml_space(b: u8) -> bool {
    b == 0x20 || b == 0x09 || b == 0x0a || b == 0x0d
}

/// Where the word that starts at or after `from` ends: at the first white
/// space, or at the end of `raw`.
pub open spec fn word_end(raw: Seq<u8>, from: int) -> int
    decreases raw.len() - from,
{
    if from < 0 || from >= raw.len() || is_xml_space(raw[from]) {
        from
    } else {
        word_end(raw, from + 1)
    }
}

/// The index of the first colon at or after `from`, or the length of `raw`.
pub open spec fn colon_at(raw: Seq<u8>, from: int) -> int
    decreases raw.len() - from,
{
    if from < 0 || from >= raw.len() || raw[from] == 0x3a {
        from
    } else {
        colon_at(raw, from + 1)
    }
}

/// The first word of a tag's content: the element's qualified name.
pub open spec fn first_word(raw: Seq<u8>) -> Seq<u8> {
    raw.take(word_end(raw, 0))
}

/// A qualified name without its prefix.
pub open spec fn local_part(name: Seq<u8>) -> Seq<u8> {
    if colon_at(name, 0) < name.len() {
        name.skip(colon_at(name, 0) + 1)
    } else {
        name
    }
}

/// The local name of the element that a tag with this content names.
pub fn local_name(raw: &[u8]) -> (name: Vec<u8>)
    ensures
        name@ == local_part(first_word(raw@)),
{
    let mut end: usize = 0;
    while end < raw.len() && !(raw[end] == 0x20 || raw[end] == 0x09 || raw[end] == 0x0a
        || raw[end] == 0x0d)
        invariant
            end <= raw@.len(),
            word_end(raw@, 0) == word_end(raw@, end as int),
        decreases raw@.len() - end,
    {
        end += 1;
    }
    let word = slice_subrange(raw, 0, end);
    let mut colon: usize = 0;
    while colon < word.len() && word[colon] != 0x3a
        invariant
            colon <= word@.len(),
            colon_at(word@, 0) == colon_at(word@, colon as int),
        decreases word@.len() - colon,
    {
        colon += 1;
    }
    if colon < word.len() {
        slice_to_vec(slice_subrange(word, colon + 1, word.len()))
    } else {
        slice_to_vec(word)
    }
}

/// The text that bytes encode, if they are UTF-8.
pub open spec fn decoded(bytes: Seq<u8>) -> Option<Seq<char>> {
    if valid_utf8(bytes) {
        Some(decode_utf8(bytes))
    } else {
        None
    }
}

/// The token that an event stands for. Only tags, text and CDATA sections
/// have one, and only where their bytes are text.
pub open spec fn event_token(event: RawEventView) -> Option<TokenView> {
    match event.kind {
        EventKind::Open => match decoded(local_part(first_word(event.raw))) {
            Some(name) => Some(TokenView::Open(name)),
            None => None,
        },
        EventKind::Close => match decoded(local_part(first_word(event.raw))) {
            Some(name) => Some(TokenView::Close(name)),
            None => None,
        },
        EventKind::Leaf => match decoded(local_part(first_word(event.raw))) {
            Some(name) => Some(TokenView::Leaf(name)),
            None => None,
        },
        EventKind::Text => match decoded(event.raw) {
            Some(raw) => match xml_unescaped(raw) {
                Some(text) => Some(TokenView::Text(text)),
                None => None,
            },
            None => None,
        },
        EventKind::Literal => match decoded(event.raw) {
            Some(text) => Some(TokenView::Text(text)),
            None => None,
        },
        _ => None,
    }
}

/// Turns an event into its token.
pub fn token_from(event: RawEvent) -> (token: Option<Token>)
    ensures
        match token {
            Some(t) => event_token(event@) == Some(t@),
            None => event_token(event@) is None,
        },
{
    match event.kind {
        EventKind::Open => match utf8_text(local_name(event.raw.as_slice())) {
            Some(name) => Some(Token::Open(name)),
            None => None,
        },
        EventKind::Close => match utf8_text(local_name(event.raw.as_slice())) {
            Some(name) => Some(Token::Close(name)),
            None => None,
        },
        EventKind::Leaf => match utf8_text(local_name(event.raw.as_slice())) {
            Some(name) => Some(Token::Leaf(name)),
            None => None,
        },
        EventKind::Text => match utf8_text(event.raw) {
            Some(raw) => match unescape(raw.as_str()) {
                Some(text) => Some(Token::Text(text)),
                None => None,
            },
            None => None,
        },
        EventKind::Literal => match utf8_text(event.raw) {
            Some(text) => Some(Token::Text(text)),
            None => None,
        },
        _ => None,
    }
}

/// How many bytes of `input` an event takes. The reader takes the `<` that
/// ends a text along with the text; the tag that the `<` opens is still to be
/// read, so the text ends before it.
pub open spec fn event_len(input: Seq<u8>, event: RawEventView) -> int {
    let taken = input.len() - event.rest;
    if event.kind == EventKind::Text && 0 < taken <= input.len() && input[taken - 1] == 0x3c {
        taken - 1
    } else {
        taken
    }
}

/// The tokens of `input`, event by event up to the end of the input. There
/// are none where an event is malformed, is not text, or takes no byte of the
/// input.
pub open spec fn scan(input: Seq<u8>) -> Option<Seq<TokenView>>
    decreases input.len(),
{
    let event = xml_first_event(input);
    let len = event_len(input, event);
    if event.kind == EventKind::End {
        Some(Seq::empty())
    } else if event.kind == EventKind::Malformed || len <= 0 || len > input.len() {
        None
    } else if event.kind == EventKind::Other {
        scan(input.skip(len))
    } else {
        match event_token(event) {
            Some(token) => after(seq![token], scan(input.skip(len))),
            None => None,
        }
    }
}

/// The tokens of a document.
pub open spec fn tokens_of(doc: Seq<char>) -> Option<Seq<TokenView>> {
    scan(encode_utf8(doc))
}

/// Reads a document into its tokens.
pub fn tokenize(doc: &str) -> (r: Result<Vec<Token>, ErrorKind>)
    ensures
        match r {
            Ok(tokens) => tokens_of(doc@) == Some(token_views(tokens@)),
            Err(e) => e == ErrorKind::MalformedResponse && tokens_of(doc@) is None,
        },
{
    let bytes = doc.as_bytes();
    let len = bytes.len();
    let mut tokens: Vec<Token> = Vec::new();
    let mut pos: usize = 0;
    assert(bytes@.skip(0) =~= bytes@);
    loop
        invariant
            bytes@ == encode_utf8(doc@),
            len == bytes@.len(),
            pos <= len,
            scan(bytes@) == after(token_views(tokens@), scan(bytes@.skip(pos as int))),
        decreases len - pos,
    {
        let ghost input = bytes@.skip(pos as int);
        let event = first_event(slice_subrange(bytes, pos, len));
        match event.kind {
            EventKind::End => {
                return Ok(tokens);
            },
            EventKind::Malformed => {
                return Err(ErrorKind::MalformedResponse);
            },
            _ => {},
        }
        if event.rest > len - pos {
            return Err(ErrorKind::MalformedResponse);
        }
        let taken = len - pos - event.rest;
        let step = if event.kind == EventKind::Text && taken > 0 && bytes[pos + taken - 1] == 0x3c {
            taken - 1
        } else {
            taken
        };
        if step == 0 {
            return Err(ErrorKind::MalformedResponse);
        }
        assert(input.skip(step as int) =~= bytes@.skip(pos + step));
        let next = pos + step;
        match event.kind {
            EventKind::Other => {},
            _ => {
                match token_from(event) {
                    Some(token) => {
                        tokens.push(token);
                    },
                    None => {
                        return Err(ErrorKind::MalformedResponse);
                    },
                }
            },
        }
        pos = next;
    }
}

} // verus!
