//! The record repository: create, read, read all, update and delete, each
//! as the request that asks the server for it and the reading of the
//! server's answer.
//!
//! A write names the tag under which the caller last saw the card, so that
//! the server refuses it where somebody else has written since.

use crate::props::Etag;
use crate::records::{record_views, Record, RecordView};
use crate::request::{Condition, ConditionView, Depth, Method, Request, RequestView};
use vstd::prelude::*;
use vstd::string::*;

verus! {

/// A contact card. The caller assigns the identifier; what the card says is
/// the caller's business.
#[derive(Clone, Debug, PartialEq, Eq)]
pub struct Card {
    pub id: String,
    pub data: String,
    /// The tag under which the server holds the card, where it is known.
    pub tag: Option<Etag>,
}

pub ghost struct CardView {
    pub id: Seq<char>,
    pub data: Seq<char>,
    pub tag: Option<Seq<char>>,
}

impl View for Card {
    type V = CardView;

    open spec fn view(&self) -> CardView {
        CardView {
            id: self.id@,
            data: self.data@,
            tag: match self.tag {
                Some(tag) => Some(tag@),
                None => None,
            },
        }
    }
}

pub open spec fn card_views(cards: Seq<Card>) -> Seq<CardView> {
    Seq::new(cards.len(), |i: int| cards[i]@)
}

/// Why the server did not do what was asked.
#[derive(Clone, Copy, Debug, PartialEq, Eq, Structural)]
pub enum Failure {
    /// There is no such card.
    NotFound,
    /// The card is not as the caller last saw it, or exists already.
    Conflict,
    /// Any other answer, with its status code.
    Rejected(u16),
}

/// What a status code says of an operation.
pub open spec fn outcome(status: u16) -> Result<(), Failure> {
    if 200 <= status < 300 {
        Ok(())
    } else if status == 404 {
        Err(Failure::NotFound)
    } else if status == 412 {
        Err(Failure::Conflict)
    } else {
        Err(Failure::Rejected(status))
    }
}

/// The server checks the tag where the caller knows one.
pub open spec fn guarded_by(tag: Option<Seq<char>>) -> ConditionView {
    match tag {
        Some(tag) => ConditionView::Tagged(tag),
        None => ConditionView::Always,
    }
}

/// The card that a record stands for.
pub open spec fn card_of(record: RecordView) -> CardView {
    CardView { id: record.id, data: record.envelope.raw_data, tag: Some(record.envelope.tag) }
}

/// The cards of a server.
#[derive(Clone, Debug, PartialEq, Eq)]
pub struct RemoteCardRepository {
    pub host: String,
}

impl RemoteCardRepository {
    fn address(&self, id: &str) -> (url: String)
        ensures
            url@ == self.host@ + id@,
    {
        let mut url = self.host.clone();
        url.append(id);
        url
    }

    fn guard(tag: &Option<Etag>) -> (condition: Condition)
        ensures
            condition@ == guarded_by(
                match tag {
                    Some(tag) => Some(tag@),
                    None => None,
                },
            ),
    {
        match tag {
            Some(tag) => Condition::Tagged(tag.value.clone()),
            None => Condition::Always,
        }
    }

    /// The request that creates a card: it writes the card unless one of
    /// that identifier exists.
    pub fn create(&self, card: &Card) -> (request: Request)
        ensures
            request@ == (RequestView {
                method: Method::Put,
                url: self.host@ + card.id@,
                depth: Depth::Target,
                condition: ConditionView::Absent,
                body: card.data@,
            }),
    {
        Request {
            method: Method::Put,
            url: self.address(card.id.as_str()),
            depth: Depth::Target,
            condition: Condition::Absent,
            body: card.data.clone(),
        }
    }

    /// The request that reads the card of an identifier.
    pub fn read(&self, id: &str) -> (request: Request)
        ensures
            request@ == (RequestView {
                method: Method::Get,
                url: self.host@ + id@,
                depth: Depth::Target,
                condition: ConditionView::Always,
                body: Seq::empty(),
            }),
    {
        Request {
            method: Method::Get,
            url: self.address(id),
            depth: Depth::Target,
            condition: Condition::Always,
            body: String::new(),
        }
    }

    /// All cards, from the records that a cycle fetched: one card per
    /// record, in the records' order.
    pub fn read_all(records: &Vec<Record>) -> (cards: Vec<Card>)
        ensures
            card_views(cards@) == Seq::new(
                records.len() as nat,
                |i: int| card_of(record_views(records@)[i]),
            ),
    {
        let mut cards: Vec<Card> = Vec::new();
        let mut i: usize = 0;
        while i < records.len()
            invariant
                i <= records.len(),
                cards@.len() == i,
                forall|k: int| 0 <= k < i ==> (#[trigger] cards@[k])@ == card_of(records@[k]@),
            decreases records.len() - i,
        {
            let record = &records[i];
            cards.push(
                Card {
                    id: record.id.clone(),
                    data: record.envelope.raw_data.clone(),
                    tag: Some(Etag { value: record.envelope.tag.value.clone() }),
                },
            );
            i += 1;
        }
        cards
    }

    /// The request that updates a card: it writes the card if the server
    /// still holds it under the tag that the card carries.
    pub fn update(&self, card: &Card) -> (request: Request)
        ensures
            request@ == (RequestView {
                method: Method::Put,
                url: self.host@ + card.id@,
                depth: Depth::Target,
                condition: guarded_by(card@.tag),
                body: card.data@,
            }),
    {
        Request {
            method: Method::Put,
            url: self.address(card.id.as_str()),
            depth: Depth::Target,
            condition: Self::guard(&card.tag),
            body: card.data.clone(),
        }
    }

    /// The request that deletes a card, under the same condition as an
    /// update.
    pub fn delete(&self, card: &Card) -> (request: Request)
        ensures
            request@ == (RequestView {
                method: Method::Delete,
                url: self.host@ + card.id@,
                depth: Depth::Target,
                condition: guarded_by(card@.tag),
                body: Seq::empty(),
            }),
    {
        Request {
            method: Method::Delete,
            url: self.address(card.id.as_str()),
            depth: Depth::Target,
            condition: Self::guard(&card.tag),
            body: String::new(),
        }
    }

    /// Reads the status code of the server's answer.
    pub fn settle(status: u16) -> (r: Result<(), Failure>)
        ensures
            r == outcome(status),
    {
        if 200 <= status && status < 300 {
            Ok(())
        } else if status == 404 {
            Err(Failure::NotFound)
        } else if status == 412 {
            Err(Failure::Conflict)
        } else {
            Err(Failure::Rejected(status))
        }
    }

    /// The card that the answer to a read holds.
    pub fn card(id: &str, status: u16, data: String, tag: Option<Etag>) -> (r: Result<
        Card,
        Failure,
    >)
        ensures
            match r {
                Ok(card) => outcome(status) is Ok && card.id@ == id@ && card.data == data
                    && card.tag == tag,
                Err(failure) => outcome(status) == Err::<(), Failure>(failure),
            },
    {
        match Self::settle(status) {
            Ok(()) => Ok(Card { id: String::from_str(id), data, tag }),
            Err(failure) => Err(failure),
        }
    }
}

} // verus!
