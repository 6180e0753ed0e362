use contact_manager::date_parser::LastModified;
use contact_manager::error::{Error, ErrorKind, Step};
use contact_manager::multistatus::{Href, Multistatus, Propstat, Response};
use contact_manager::props::{AddressData, AddressDataProp, Ctag, CtagProp, Etag};
use contact_manager::records::{
    collect_records, fetch_all_records, fetch_ctag, find_record, missing_from, read_record,
    reconcile, resolve_ctag, Reconciliation, Record, RecordEnvelope,
};

fn wrap(responses: &str) -> String {
    format!(
        "<d:multistatus xmlns:d=\"DAV:\" xmlns:card=\"urn:ietf:params:xml:ns:carddav\" xmlns:cs=\"http://calendarserver.org/ns/\">{}</d:multistatus>",
        responses
    )
}

fn entry(path: &str, prop: &str) -> String {
    format!(
        "<d:response><d:href>{}</d:href><d:propstat><d:prop>{}</d:prop><d:status>HTTP/1.1 200 OK</d:status></d:propstat></d:response>",
        path, prop
    )
}

fn card(path: &str, tag: &str, date: &str, data: &str) -> String {
    entry(
        path,
        &format!(
            "<d:getetag>{}</d:getetag><d:getlastmodified>{}</d:getlastmodified><card:address-data>{}</card:address-data>",
            tag, date, data
        ),
    )
}

fn record(id: &str, tag: &str) -> Record {
    Record {
        id: id.to_string(),
        envelope: RecordEnvelope {
            raw_data: format!("BEGIN:VCARD\nUID:{}\nEND:VCARD", id),
            tag: Etag { value: tag.to_string() },
            last_modified: LastModified { value: 1424301369 },
        },
    }
}

fn tag_entry(tag: Option<&str>) -> Response<CtagProp> {
    Response {
        href: Href { value: "/c/".to_string() },
        propstat: Propstat {
            prop: CtagProp { getctag: tag.map(|t| Ctag { value: t.to_string() }) },
            status: None,
        },
    }
}

#[test]
fn the_change_tag_is_that_of_the_first_entry() {
    let body = wrap(&format!(
        "{}{}",
        entry("/c/", "<cs:getctag>abc123</cs:getctag>"),
        entry("/c/other", "<cs:getctag>zzz</cs:getctag>")
    ));
    assert_eq!(fetch_ctag(&body), Ok(Ctag { value: "abc123".to_string() }));
}

#[test]
fn a_response_without_entries_has_no_change_tag() {
    assert_eq!(
        fetch_ctag(&wrap("")),
        Err(Error { kind: ErrorKind::MissingRequiredProperty, step: Step::ChangeTag })
    );
    assert_eq!(resolve_ctag(&Multistatus { responses: vec![] }), Err(ErrorKind::MissingRequiredProperty));
}

#[test]
fn a_first_entry_without_tag_has_no_change_tag() {
    let body = wrap(&format!("{}{}", entry("/c/", ""), entry("/c/", "<cs:getctag>late</cs:getctag>")));
    assert_eq!(
        fetch_ctag(&body),
        Err(Error { kind: ErrorKind::MissingRequiredProperty, step: Step::ChangeTag })
    );
    let response = Multistatus { responses: vec![tag_entry(None), tag_entry(Some("late"))] };
    assert_eq!(resolve_ctag(&response), Err(ErrorKind::MissingRequiredProperty));
    let response = Multistatus { responses: vec![tag_entry(Some("t")), tag_entry(None)] };
    assert_eq!(resolve_ctag(&response), Ok(Ctag { value: "t".to_string() }));
}

#[test]
fn a_change_tag_body_that_does_not_parse() {
    assert_eq!(
        fetch_ctag("<d:multistatus>"),
        Err(Error { kind: ErrorKind::MalformedResponse, step: Step::ChangeTag })
    );
}

#[test]
fn all_records_come_with_their_identifiers() {
    let body = wrap(&format!(
        "{}{}{}",
        card("/c/1.vcf", "\"e1\"", "Wed, 18 Feb 2015 23:16:09 GMT", "BEGIN:VCARD\nFN:One\nEND:VCARD"),
        card("/c/2.vcf", "\"e2\"", "Tue, 1 Jul 2003 10:52:37 +0200", "BEGIN:VCARD\nFN:Two\nEND:VCARD"),
        card("/c/3.vcf", "\"e3\"", "Thu, 01 Jan 1970 00:00:00 +0000", "<![CDATA[BEGIN:VCARD\nFN:<3>\nEND:VCARD]]>"),
    ));
    let records = fetch_all_records(&body).unwrap();
    assert_eq!(
        records,
        vec![
            Record {
                id: "/c/1.vcf".to_string(),
                envelope: RecordEnvelope {
                    raw_data: "BEGIN:VCARD\nFN:One\nEND:VCARD".to_string(),
                    tag: Etag { value: "\"e1\"".to_string() },
                    last_modified: LastModified { value: 1424301369 },
                },
            },
            Record {
                id: "/c/2.vcf".to_string(),
                envelope: RecordEnvelope {
                    raw_data: "BEGIN:VCARD\nFN:Two\nEND:VCARD".to_string(),
                    tag: Etag { value: "\"e2\"".to_string() },
                    last_modified: LastModified { value: 1057049557 },
                },
            },
            Record {
                id: "/c/3.vcf".to_string(),
                envelope: RecordEnvelope {
                    raw_data: "BEGIN:VCARD\nFN:<3>\nEND:VCARD".to_string(),
                    tag: Etag { value: "\"e3\"".to_string() },
                    last_modified: LastModified { value: 0 },
                },
            },
        ]
    );
}

#[test]
fn no_entries_are_no_records() {
    assert_eq!(fetch_all_records(&wrap("")), Ok(vec![]));
}

#[test]
fn one_bad_date_fails_the_fetch() {
    let body = wrap(&format!(
        "{}{}",
        card("/c/1.vcf", "e1", "Wed, 18 Feb 2015 23:16:09 GMT", "x"),
        card("/c/2.vcf", "e2", "the day before yesterday", "y"),
    ));
    assert_eq!(fetch_all_records(&body), Err(Error { kind: ErrorKind::DateParse, step: Step::Records }));
}

#[test]
fn one_incomplete_entry_fails_the_fetch() {
    let body = wrap(&format!(
        "{}{}",
        card("/c/1.vcf", "e1", "Wed, 18 Feb 2015 23:16:09 GMT", "x"),
        entry("/c/", "<d:getetag>e</d:getetag>"),
    ));
    assert_eq!(
        fetch_all_records(&body),
        Err(Error { kind: ErrorKind::MissingRequiredProperty, step: Step::Records })
    );
}

#[test]
fn a_records_body_that_does_not_parse() {
    assert_eq!(
        fetch_all_records("<html>"),
        Err(Error { kind: ErrorKind::MalformedResponse, step: Step::Records })
    );
}

#[test]
fn read_record_wants_all_three_properties() {
    let whole = AddressDataProp {
        address_data: Some(AddressData { value: "d".to_string() }),
        getetag: Some(Etag { value: "t".to_string() }),
        getlastmodified: Some(LastModified { value: 7 }),
    };
    let response = |prop: AddressDataProp| Response {
        href: Href { value: "/r".to_string() },
        propstat: Propstat { prop, status: None },
    };
    assert_eq!(
        read_record(&response(whole.clone())),
        Some(Record {
            id: "/r".to_string(),
            envelope: RecordEnvelope {
                raw_data: "d".to_string(),
                tag: Etag { value: "t".to_string() },
                last_modified: LastModified { value: 7 },
            },
        })
    );
    assert_eq!(read_record(&response(AddressDataProp { address_data: None, ..whole.clone() })), None);
    assert_eq!(read_record(&response(AddressDataProp { getetag: None, ..whole.clone() })), None);
    assert_eq!(read_record(&response(AddressDataProp { getlastmodified: None, ..whole.clone() })), None);
    let parsed = Multistatus { responses: vec![response(whole.clone()), response(whole)] };
    assert_eq!(collect_records(&parsed).map(|records| records.len()), Ok(2));
}

#[test]
fn find_record_gives_the_first_of_that_name() {
    let records = vec![record("a", "1"), record("b", "2"), record("a", "3")];
    assert_eq!(find_record(&records, "a"), Some(0));
    assert_eq!(find_record(&records, "b"), Some(1));
    assert_eq!(find_record(&records, "c"), None);
    assert_eq!(find_record(&vec![], "a"), None);
}

#[test]
fn missing_from_lists_indices_in_rising_order() {
    let items = vec![record("a", "1"), record("b", "1"), record("c", "1"), record("d", "1")];
    let others = vec![record("c", "9"), record("a", "9")];
    assert_eq!(missing_from(&items, &others), vec![1, 3]);
    assert_eq!(missing_from(&others, &items), Vec::<usize>::new());
    assert_eq!(missing_from(&items, &vec![]), vec![0, 1, 2, 3]);
    assert_eq!(missing_from(&vec![], &items), Vec::<usize>::new());
}

#[test]
fn reconcile_compares_by_identifier_and_tag() {
    let local = vec![record("/1", "a"), record("/2", "b"), record("/3", "c")];
    let fetched = vec![record("/2", "b"), record("/4", "x"), record("/3", "changed"), record("/5", "y")];
    assert_eq!(
        reconcile(&local, &fetched),
        Reconciliation { created: vec![1, 3], updated: vec![2], deleted: vec![0] }
    );
}

#[test]
fn reconcile_of_equal_stores_finds_nothing() {
    let local = vec![record("/1", "a"), record("/2", "b")];
    assert_eq!(
        reconcile(&local, &local.clone()),
        Reconciliation { created: vec![], updated: vec![], deleted: vec![] }
    );
    assert_eq!(
        reconcile(&vec![], &vec![]),
        Reconciliation { created: vec![], updated: vec![], deleted: vec![] }
    );
}

#[test]
fn reconcile_against_an_empty_store_creates_everything() {
    let fetched = vec![record("/1", "a"), record("/2", "b"), record("/3", "c")];
    assert_eq!(
        reconcile(&vec![], &fetched),
        Reconciliation { created: vec![0, 1, 2], updated: vec![], deleted: vec![] }
    );
    assert_eq!(
        reconcile(&fetched, &vec![]),
        Reconciliation { created: vec![], updated: vec![], deleted: vec![0, 1, 2] }
    );
}

#[test]
fn tags_are_compared_byte_for_byte() {
    let ctag = |t: &str| Ctag { value: t.to_string() };
    let etag = |t: &str| Etag { value: t.to_string() };
    assert!(ctag("abc123").same_as(&ctag("abc123")));
    assert!(!ctag("abc123").same_as(&ctag("abc124")));
    assert!(!ctag("1").same_as(&ctag("01")));
    assert!(!ctag("a").same_as(&ctag("A")));
    assert!(ctag("").same_as(&ctag("")));
    assert!(etag("\"e1\"").same_as(&etag("\"e1\"")));
    assert!(!etag("\"e1\"").same_as(&etag("e1")));
    assert!(!etag("W/\"e1\"").same_as(&etag("\"e1\"")));
}
