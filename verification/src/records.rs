//! Change detection and records: the collection's change tag, the records of
//! a collection, and how fetched records compare with those held locally.

use crate::date_parser::LastModified;
use crate::error::{Error, ErrorKind, Step};
use crate::multistatus::{multistatus_of, Multistatus, Response, ResponseView};
use crate::props::{AddressDataProp, AddressDataPropView, Ctag, CtagProp, Etag};
use crate::text::str_eq;
use vstd::prelude::*;

verus! {

/// A record as the server holds it.
#[derive(Clone, Debug, PartialEq, Eq)]
pub struct RecordEnvelope {
    /// The record in its own text format.
    pub raw_data: String,
    pub tag: Etag,
    pub last_modified: LastModified,
}

pub ghost struct RecordEnvelopeView {
    pub raw_data: Seq<char>,
    pub tag: Seq<char>,
    pub last_modified: LastModified,
}

impl View for RecordEnvelope {
    type V = RecordEnvelopeView;

    open spec fn view(&self) -> RecordEnvelopeView {
        RecordEnvelopeView {
            raw_data: self.raw_data@,
            tag: self.tag@,
            last_modified: self.last_modified,
        }
    }
}

/// A record with the identifier under which the server keeps it.
#[derive(Clone, Debug, PartialEq, Eq)]
pub struct Record {
    pub id: String,
    pub envelope: RecordEnvelope,
}

pub ghost struct RecordView {
    pub id: Seq<char>,
    pub envelope: RecordEnvelopeView,
}

impl View for Record {
    type V = RecordView;

    open spec fn view(&self) -> RecordView {
        RecordView { id: self.id@, envelope: self.envelope@ }
    }
}

pub open spec fn record_views(records: Seq<Record>) -> Seq<RecordView> {
    Seq::new(records.len(), |i: int| records[i]@)
}

/// The change tag that a response carries: that of its first entry. Without
/// it a cycle cannot go on, so its absence is an error.
pub open spec fn change_tag(entries: Seq<ResponseView<Option<Seq<char>>>>) -> Result<
    Seq<char>,
    ErrorKind,
> {
    if entries.len() > 0 {
        match entries[0].propstat.prop {
            Some(tag) => Ok(tag),
            None => Err(ErrorKind::MissingRequiredProperty),
        }
    } else {
        Err(ErrorKind::MissingRequiredProperty)
    }
}

/// The change tag that a response body gives.
pub open spec fn ctag_of(body: Seq<char>) -> Result<Seq<char>, Error> {
    match multistatus_of::<CtagProp>(body) {
        Ok(entries) => match change_tag(entries) {
            Ok(tag) => Ok(tag),
            Err(kind) => Err(Error { kind, step: Step::ChangeTag }),
        },
        Err(kind) => Err(Error { kind, step: Step::ChangeTag }),
    }
}

/// Takes the change tag from a parsed response.
pub fn resolve_ctag(response: &Multistatus<CtagProp>) -> (r: Result<Ctag, ErrorKind>)
    ensures
        match r {
            Ok(tag) => change_tag(response@) == Ok::<Seq<char>, ErrorKind>(tag@),
            Err(e) => change_tag(response@) == Err::<Seq<char>, ErrorKind>(e),
        },
{
    if response.responses.len() > 0 {
        match &response.responses[0].propstat.prop.getctag {
            Some(tag) => Ok(Ctag { value: tag.value.clone() }),
            None => Err(ErrorKind::MissingRequiredProperty),
        }
    } else {
        Err(ErrorKind::MissingRequiredProperty)
    }
}

/// The change tag, from the body of the response to the change-tag request.
pub fn fetch_ctag(body: &str) -> (r: Result<Ctag, Error>)
    ensures
        match r {
            Ok(tag) => ctag_of(body@) == Ok::<Seq<char>, Error>(tag@),
            Err(e) => ctag_of(body@) == Err::<Seq<char>, Error>(e),
        },
{
    match Multistatus::<CtagProp>::parse(body) {
        Ok(response) => match resolve_ctag(&response) {
            Ok(tag) => Ok(tag),
            Err(kind) => Err(Error { kind, step: Step::ChangeTag }),
        },
        Err(kind) => Err(Error { kind, step: Step::ChangeTag }),
    }
}

/// An entry that holds a whole record: data, tag and modification time.
pub open spec fn is_complete(entry: ResponseView<AddressDataPropView>) -> bool {
    entry.propstat.prop.address_data is Some && entry.propstat.prop.getetag is Some
        && entry.propstat.prop.getlastmodified is Some
}

/// The record that a complete entry holds, under the entry's identifier.
pub open spec fn record_of(entry: ResponseView<AddressDataPropView>) -> RecordView {
    RecordView {
        id: entry.href,
        envelope: RecordEnvelopeView {
            raw_data: entry.propstat.prop.address_data->0,
            tag: entry.propstat.prop.getetag->0,
            last_modified: entry.propstat.prop.getlastmodified->0,
        },
    }
}

/// The records of a response, one per entry and in the entries' order. One
/// incomplete entry fails them all.
pub open spec fn records_of(entries: Seq<ResponseView<AddressDataPropView>>) -> Result<
    Seq<RecordView>,
    ErrorKind,
> {
    if forall|i: int| 0 <= i < entries.len() ==> is_complete(#[trigger] entries[i]) {
        Ok(Seq::new(entries.len(), |i: int| record_of(entries[i])))
    } else {
        Err(ErrorKind::MissingRequiredProperty)
    }
}

/// The records that a response body gives.
pub open spec fn all_records_of(body: Seq<char>) -> Result<Seq<RecordView>, Error> {
    match multistatus_of::<AddressDataProp>(body) {
        Ok(entries) => match records_of(entries) {
            Ok(records) => Ok(records),
            Err(kind) => Err(Error { kind, step: Step::Records }),
        },
        Err(kind) => Err(Error { kind, step: Step::Records }),
    }
}

/// Takes the record from an entry.
pub fn read_record(entry: &Response<AddressDataProp>) -> (r: Option<Record>)
    ensures
        match r {
            Some(record) => is_complete(entry@) && record@ == record_of(entry@),
            None => !is_complete(entry@),
        },
{
    match (
        &entry.propstat.prop.address_data,
        &entry.propstat.prop.getetag,
        &entry.propstat.prop.getlastmodified,
    ) {
        (Some(data), Some(tag), Some(stamp)) => Some(
            Record {
                id: entry.href.value.clone(),
                envelope: RecordEnvelope {
                    raw_data: data.value.clone(),
                    tag: Etag { value: tag.value.clone() },
                    last_modified: *stamp,
                },
            },
        ),
        _ => None,
    }
}

/// Takes the records from a parsed response.
pub fn collect_records(response: &Multistatus<AddressDataProp>) -> (r: Result<
    Vec<Record>,
    ErrorKind,
>)
    ensures
        match r {
            Ok(records) => records_of(response@) == Ok::<Seq<RecordView>, ErrorKind>(
                record_views(records@),
            ),
            Err(e) => records_of(response@) == Err::<Seq<RecordView>, ErrorKind>(e),
        },
{
    let mut records: Vec<Record> = Vec::new();
    let mut at: usize = 0;
    while at < response.responses.len()
        invariant
            at <= response.responses.len(),
            records@.len() == at,
            forall|i: int| 0 <= i < at ==> is_complete(#[trigger] response@[i]),
            forall|i: int| 0 <= i < at ==> (#[trigger] records@[i])@ == record_of(response@[i]),
        decreases response.responses.len() - at,
    {
        assert(response@[at as int] == response.responses@[at as int]@);
        match read_record(&response.responses[at]) {
            Some(record) => {
                records.push(record);
            },
            None => {
                return Err(ErrorKind::MissingRequiredProperty);
            },
        }
        at += 1;
    }
    assert(record_views(records@) =~= Seq::new(
        response@.len(),
        |i: int| record_of(response@[i]),
    ));
    Ok(records)
}

/// All records of the collection, from the body of the response to the bulk
/// request. A record whose modification time is no date, or an entry without
/// a whole record, fails the fetch: there is no partial result.
pub fn fetch_all_records(body: &str) -> (r: Result<Vec<Record>, Error>)
    ensures
        match r {
            Ok(records) => all_records_of(body@) == Ok::<Seq<RecordView>, Error>(
                record_views(records@),
            ),
            Err(e) => all_records_of(body@) == Err::<Seq<RecordView>, Error>(e),
        },
{
    match Multistatus::<AddressDataProp>::parse(body) {
        Ok(response) => match collect_records(&response) {
            Ok(records) => Ok(records),
            Err(kind) => Err(Error { kind, step: Step::Records }),
        },
        Err(kind) => Err(Error { kind, step: Step::Records }),
    }
}

/// The index of the first record called `id`, from index `from` on.
pub open spec fn position(records: Seq<RecordView>, id: Seq<char>, from: int) -> Option<int>
    decreases records.len() - from,
{
    if from < 0 || from >= records.len() {
        None
    } else if records[from].id == id {
        Some(from)
    } else {
        position(records, id, from + 1)
    }
}

/// The indices below `n` of the records of `items` that `others` has no
/// record for, in rising order.
pub open spec fn missing_below(items: Seq<RecordView>, others: Seq<RecordView>, n: int) -> Seq<
    usize,
>
    decreases n,
{
    if n <= 0 {
        Seq::empty()
    } else if position(others, items[n - 1].id, 0) is None {
        missing_below(items, others, n - 1).push((n - 1) as usize)
    } else {
        missing_below(items, others, n - 1)
    }
}

/// Whether the fetched record at `i` replaces a local record: the local
/// store has a record of that identifier, under another tag.
pub open spec fn is_changed(local: Seq<RecordView>, fetched: Seq<RecordView>, i: int) -> bool {
    match position(local, fetched[i].id, 0) {
        Some(j) => local[j].envelope.tag != fetched[i].envelope.tag,
        None => false,
    }
}

/// The indices below `n` of the fetched records that replace a local record,
/// in rising order.
pub open spec fn changed_below(local: Seq<RecordView>, fetched: Seq<RecordView>, n: int) -> Seq<
    usize,
>
    decreases n,
{
    if n <= 0 {
        Seq::empty()
    } else if is_changed(local, fetched, n - 1) {
        changed_below(local, fetched, n - 1).push((n - 1) as usize)
    } else {
        changed_below(local, fetched, n - 1)
    }
}

/// How the fetched records differ from the local ones, by identifier and tag.
#[derive(Clone, Debug, PartialEq, Eq)]
pub struct Reconciliation {
    /// Indices of the fetched records that the local store does not hold.
    pub created: Vec<usize>,
    /// Indices of the fetched records that the local store holds under
    /// another tag.
    pub updated: Vec<usize>,
    /// Indices of the local records that the server no longer has.
    pub deleted: Vec<usize>,
}

pub ghost struct ReconciliationView {
    pub created: Seq<usize>,
    pub updated: Seq<usize>,
    pub deleted: Seq<usize>,
}

impl View for Reconciliation {
    type V = ReconciliationView;

    open spec fn view(&self) -> ReconciliationView {
        ReconciliationView {
            created: self.created@,
            updated: self.updated@,
            deleted: self.deleted@,
        }
    }
}

/// The difference between what is held and what was fetched.
pub open spec fn reconciliation_of(local: Seq<RecordView>, fetched: Seq<RecordView>)
    -> ReconciliationView {
    ReconciliationView {
        created: missing_below(fetched, local, fetched.len() as int),
        updated: changed_below(local, fetched, fetched.len() as int),
        deleted: missing_below(local, fetched, local.len() as int),
    }
}

/// Looks a record up by its identifier.
pub fn find_record(records: &Vec<Record>, id: &str) -> (at: Option<usize>)
    ensures
        match at {
            Some(i) => position(record_views(records@), id@, 0) == Some(i as int) && i
                < records.len() && records@[i as int].id@ == id@,
            None => position(record_views(records@), id@, 0) is None,
        },
{
    let ghost all = record_views(records@);
    let mut i: usize = 0;
    while i < records.len()
        invariant
            all == record_views(records@),
            position(all, id@, 0) == position(all, id@, i as int),
        decreases records.len() - i,
    {
        if str_eq(records[i].id.as_str(), id) {
            return Some(i);
        }
        i += 1;
    }
    None
}

/// The indices of the records of `items` that `others` has no record for.
pub fn missing_from(items: &Vec<Record>, others: &Vec<Record>) -> (missing: Vec<usize>)
    ensures
        missing@ == missing_below(
            record_views(items@),
            record_views(others@),
            items.len() as int,
        ),
{
    let ghost all = record_views(items@);
    let mut missing: Vec<usize> = Vec::new();
    let mut i: usize = 0;
    while i < items.len()
        invariant
            all == record_views(items@),
            i <= items.len(),
            missing@ == missing_below(all, record_views(others@), i as int),
        decreases items.len() - i,
    {
        if find_record(others, items[i].id.as_str()).is_none() {
            missing.push(i);
        }
        i += 1;
    }
    missing
}

/// Compares fetched records with the local ones.
pub fn reconcile(local: &Vec<Record>, fetched: &Vec<Record>) -> (changes: Reconciliation)
    ensures
        changes@ == reconciliation_of(record_views(local@), record_views(fetched@)),
{
    let ghost held = record_views(local@);
    let ghost got = record_views(fetched@);
    let created = missing_from(fetched, local);
    let deleted = missing_from(local, fetched);
    let mut updated: Vec<usize> = Vec::new();
    let mut i: usize = 0;
    while i < fetched.len()
        invariant
            held == record_views(local@),
            got == record_views(fetched@),
            i <= fetched.len(),
            updated@ == changed_below(held, got, i as int),
        decreases fetched.len() - i,
    {
        match find_record(local, fetched[i].id.as_str()) {
            Some(j) => {
                if !local[j].envelope.tag.same_as(&fetched[i].envelope.tag) {
                    updated.push(i);
                }
            },
            None => {},
        }
        i += 1;
    }
    Reconciliation { created, updated, deleted }
}

} // verus!
