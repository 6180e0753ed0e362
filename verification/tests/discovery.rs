use contact_manager::discovery::{
    addressbook, addressbook_home_set, current_user_principal, entry_is_addressbook,
    fetch_addressbook_home_set_url, fetch_addressbook_url, fetch_current_user_principal_url,
    find_addressbook, find_addressbook_home_set, find_current_user_principal, resolve,
    resolve_addressbook, resolve_addressbook_home_set, resolve_current_user_principal,
};
use contact_manager::error::{Error, ErrorKind, Step};
use contact_manager::multistatus::{Href, Multistatus, Propstat, Response, Status};
use contact_manager::props::{
    Addressbook, AddressbookHomeSet, AddressbookHomeSetProp, AddressbookProp,
    AddressbookResourceType, CurrentUserPrincipal, CurrentUserPrincipalProp,
};

fn wrap(responses: &str) -> String {
    format!(
        "<?xml version=\"1.0\" encoding=\"utf-8\"?>\n<d:multistatus xmlns:d=\"DAV:\" xmlns:card=\"urn:ietf:params:xml:ns:carddav\">\n{}\n</d:multistatus>\n",
        responses
    )
}

fn entry(path: &str, prop: &str, status_line: &str) -> String {
    format!(
        "<d:response>\n <d:href>{}</d:href>\n <d:propstat>\n  <d:prop>{}</d:prop>\n  <d:status>{}</d:status>\n </d:propstat>\n</d:response>",
        path, prop, status_line
    )
}

fn collection(path: &str, marked: bool, status_line: Option<&str>) -> Response<AddressbookProp> {
    Response {
        href: Href { value: path.to_string() },
        propstat: Propstat {
            prop: AddressbookProp {
                resourcetype: AddressbookResourceType {
                    addressbook: if marked { Some(Addressbook {}) } else { None },
                },
            },
            status: status_line.map(|line| Status { value: line.to_string() }),
        },
    }
}

fn principal(path: Option<&str>) -> Response<CurrentUserPrincipalProp> {
    Response {
        href: Href { value: "/".to_string() },
        propstat: Propstat {
            prop: CurrentUserPrincipalProp {
                current_user_principal: path
                    .map(|p| CurrentUserPrincipal { href: Href { value: p.to_string() } }),
            },
            status: None,
        },
    }
}

fn home_set(path: Option<&str>) -> Response<AddressbookHomeSetProp> {
    Response {
        href: Href { value: "/".to_string() },
        propstat: Propstat {
            prop: AddressbookHomeSetProp {
                addressbook_home_set: path
                    .map(|p| AddressbookHomeSet { href: Href { value: p.to_string() } }),
            },
            status: None,
        },
    }
}

#[test]
fn principal_href_is_resolved() {
    let body = wrap(&entry(
        "/",
        "<d:current-user-principal><d:href>/principals/alice/</d:href></d:current-user-principal>",
        "HTTP/1.1 200 OK",
    ));
    let url = fetch_current_user_principal_url("/".to_string(), &body);
    assert_eq!(url, Ok("/principals/alice/".to_string()));
}

#[test]
fn principal_falls_back_when_the_property_is_absent() {
    let body = wrap(&entry("/", "", "HTTP/1.1 404 Not Found"));
    assert_eq!(
        fetch_current_user_principal_url("/start".to_string(), &body),
        Ok("/start".to_string())
    );
    let other = wrap(&entry("/", "<d:displayname>alice</d:displayname>", "HTTP/1.1 200 OK"));
    assert_eq!(
        fetch_current_user_principal_url("/start".to_string(), &other),
        Ok("/start".to_string())
    );
}

#[test]
fn principal_falls_back_when_there_is_no_entry() {
    assert_eq!(
        fetch_current_user_principal_url("/start".to_string(), &wrap("")),
        Ok("/start".to_string())
    );
}

#[test]
fn principal_looks_at_the_first_entry_only() {
    let response = Multistatus { responses: vec![principal(None), principal(Some("/late/"))] };
    assert_eq!(resolve_current_user_principal("/p".to_string(), &response), "/p");
    let response = Multistatus { responses: vec![principal(Some("/first/")), principal(Some("/late/"))] };
    assert_eq!(resolve_current_user_principal("/p".to_string(), &response), "/first/");
    let response = Multistatus { responses: vec![] };
    assert_eq!(resolve_current_user_principal("/p".to_string(), &response), "/p");
}

#[test]
fn home_set_href_is_resolved() {
    let body = wrap(&entry(
        "/principals/alice/",
        "<card:addressbook-home-set><d:href>/addressbooks/alice/</d:href></card:addressbook-home-set>",
        "HTTP/1.1 200 OK",
    ));
    assert_eq!(
        fetch_addressbook_home_set_url("/principals/alice/".to_string(), &body),
        Ok("/addressbooks/alice/".to_string())
    );
}

#[test]
fn home_set_falls_back_when_the_property_is_absent() {
    let body = wrap(&entry("/principals/alice/", "", "HTTP/1.1 404 Not Found"));
    assert_eq!(
        fetch_addressbook_home_set_url("/principals/alice/".to_string(), &body),
        Ok("/principals/alice/".to_string())
    );
    let response = Multistatus { responses: vec![home_set(None)] };
    assert_eq!(resolve_addressbook_home_set("/p".to_string(), &response), "/p");
    let response = Multistatus { responses: vec![home_set(Some("/h/"))] };
    assert_eq!(resolve_addressbook_home_set("/p".to_string(), &response), "/h/");
}

#[test]
fn collection_needs_both_success_and_marker() {
    let response = Multistatus {
        responses: vec![
            collection("/missing/", true, Some("HTTP/1.1 404 Not Found")),
            collection("/plain/", false, Some("HTTP/1.1 200 OK")),
        ],
    };
    assert_eq!(resolve_addressbook("/fallback".to_string(), &response), "/fallback");
}

#[test]
fn collection_takes_the_first_match() {
    let response = Multistatus {
        responses: vec![
            collection("/plain/", false, Some("HTTP/1.1 200 OK")),
            collection("/first/", true, Some("HTTP/1.1 200 OK")),
            collection("/second/", true, Some("HTTP/1.1 200 OK")),
        ],
    };
    assert_eq!(resolve_addressbook("/fallback".to_string(), &response), "/first/");
    let response = Multistatus {
        responses: vec![collection("/only/", true, Some("HTTP/1.1 200 OK"))],
    };
    assert_eq!(resolve_addressbook("/fallback".to_string(), &response), "/only/");
}

#[test]
fn collection_falls_back_without_entries() {
    let response = Multistatus { responses: vec![] };
    assert_eq!(resolve_addressbook("/fallback".to_string(), &response), "/fallback");
}

#[test]
fn success_is_an_exact_suffix() {
    assert!(entry_is_addressbook(&collection("/a/", true, Some("HTTP/1.1 200 OK"))));
    assert!(entry_is_addressbook(&collection("/a/", true, Some("200 OK"))));
    assert!(entry_is_addressbook(&collection("/a/", true, Some("HTTP/2 200 OK"))));
    assert!(!entry_is_addressbook(&collection("/a/", true, Some("HTTP/1.1 200 OK "))));
    assert!(!entry_is_addressbook(&collection("/a/", true, Some("HTTP/1.1 200 ok"))));
    assert!(!entry_is_addressbook(&collection("/a/", true, Some("HTTP/1.1 200  OK"))));
    assert!(!entry_is_addressbook(&collection("/a/", true, Some("HTTP/1.1 207 Multi-Status"))));
    assert!(!entry_is_addressbook(&collection("/a/", true, Some("00 OK"))));
    assert!(!entry_is_addressbook(&collection("/a/", true, Some(""))));
    assert!(!entry_is_addressbook(&collection("/a/", true, None)));
    assert!(!entry_is_addressbook(&collection("/a/", false, Some("HTTP/1.1 200 OK"))));
}

#[test]
fn collection_is_resolved_from_a_body() {
    let body = wrap(&format!(
        "{}{}{}",
        entry("/addressbooks/alice/", "<d:resourcetype><d:collection/></d:resourcetype>", "HTTP/1.1 200 OK"),
        entry(
            "/addressbooks/alice/gone/",
            "<d:resourcetype><d:collection/><card:addressbook/></d:resourcetype>",
            "HTTP/1.1 404 Not Found"
        ),
        entry(
            "/addressbooks/alice/contacts/",
            "<d:resourcetype><d:collection/><card:addressbook/></d:resourcetype>",
            "HTTP/1.1 200 OK"
        ),
    ));
    assert_eq!(
        fetch_addressbook_url("/addressbooks/alice/".to_string(), &body),
        Ok("/addressbooks/alice/contacts/".to_string())
    );
}

#[test]
fn the_chain_resolves_the_collection() {
    let path = "/".to_string();
    let principal_body = wrap(&entry(
        "/",
        "<d:current-user-principal><d:href>/principals/alice/</d:href></d:current-user-principal>",
        "HTTP/1.1 200 OK",
    ));
    let path = fetch_current_user_principal_url(path, &principal_body).unwrap();
    assert_eq!(path, "/principals/alice/");
    let home_body = wrap(&entry(
        "/principals/alice/",
        "<card:addressbook-home-set><d:href>/addressbooks/alice/</d:href></card:addressbook-home-set>",
        "HTTP/1.1 200 OK",
    ));
    let path = fetch_addressbook_home_set_url(path, &home_body).unwrap();
    assert_eq!(path, "/addressbooks/alice/");
    let collection_body = wrap(&format!(
        "{}{}{}",
        entry("/addressbooks/alice/", "<d:resourcetype><d:collection/></d:resourcetype>", "HTTP/1.1 200 OK"),
        entry(
            "/addressbooks/alice/contacts/",
            "<d:resourcetype><d:collection/><card:addressbook/></d:resourcetype>",
            "HTTP/1.1 200 OK"
        ),
        entry("/addressbooks/alice/old/", "<d:resourcetype><card:addressbook/></d:resourcetype>", "HTTP/1.1 403 Forbidden"),
    ));
    let path = fetch_addressbook_url(path, &collection_body).unwrap();
    assert_eq!(path, "/addressbooks/alice/contacts/");
}

#[test]
fn what_a_step_finds_is_optional() {
    let response = Multistatus { responses: vec![principal(None), principal(Some("/late/"))] };
    assert_eq!(current_user_principal(&response), None);
    let response = Multistatus { responses: vec![principal(Some("/first/"))] };
    assert_eq!(current_user_principal(&response), Some("/first/".to_string()));
    assert_eq!(current_user_principal(&Multistatus { responses: vec![] }), None);
    let response = Multistatus { responses: vec![home_set(Some("/h/")), home_set(None)] };
    assert_eq!(addressbook_home_set(&response), Some("/h/".to_string()));
    assert_eq!(addressbook_home_set(&Multistatus { responses: vec![home_set(None)] }), None);
    let response = Multistatus {
        responses: vec![
            collection("/a/", true, Some("HTTP/1.1 404 Not Found")),
            collection("/b/", true, Some("HTTP/1.1 200 OK")),
        ],
    };
    assert_eq!(addressbook(&response), Some("/b/".to_string()));
    assert_eq!(addressbook(&Multistatus { responses: vec![collection("/a/", false, None)] }), None);
}

#[test]
fn absent_and_failed_are_told_apart() {
    let empty = wrap(&entry("/", "", "HTTP/1.1 404 Not Found"));
    assert_eq!(find_current_user_principal(&empty), Ok(None));
    assert_eq!(find_addressbook_home_set(&empty), Ok(None));
    assert_eq!(find_addressbook(&empty), Ok(None));
    assert_eq!(
        find_current_user_principal("<broken"),
        Err(Error { kind: ErrorKind::MalformedResponse, step: Step::Principal })
    );
    assert_eq!(
        find_addressbook_home_set("<broken"),
        Err(Error { kind: ErrorKind::MalformedResponse, step: Step::HomeSet })
    );
    assert_eq!(
        find_addressbook("<broken"),
        Err(Error { kind: ErrorKind::MalformedResponse, step: Step::Collection })
    );
    let same = wrap(&entry(
        "/",
        "<d:current-user-principal><d:href>/start</d:href></d:current-user-principal>",
        "HTTP/1.1 200 OK",
    ));
    assert_eq!(find_current_user_principal(&same), Ok(Some("/start".to_string())));
    assert_eq!(fetch_current_user_principal_url("/start".to_string(), &same), Ok("/start".to_string()));
}

#[test]
fn resolve_prefers_what_was_found() {
    assert_eq!(resolve(Some("/found".to_string()), "/given".to_string()), "/found");
    assert_eq!(resolve(None, "/given".to_string()), "/given");
    assert_eq!(resolve(Some(String::new()), "/given".to_string()), "");
}

#[test]
fn a_body_that_does_not_parse_fails_the_step() {
    assert_eq!(
        fetch_current_user_principal_url("/".to_string(), "<oops"),
        Err(Error { kind: ErrorKind::MalformedResponse, step: Step::Principal })
    );
    assert_eq!(
        fetch_addressbook_home_set_url("/".to_string(), "<a></b>"),
        Err(Error { kind: ErrorKind::MalformedResponse, step: Step::HomeSet })
    );
    assert_eq!(
        fetch_addressbook_url("/".to_string(), "401 Unauthorized"),
        Err(Error { kind: ErrorKind::MalformedResponse, step: Step::Collection })
    );
}

#[test]
fn error_messages() {
    let message = |kind, step| Error { kind, step }.message();
    assert_eq!(message(ErrorKind::Transport, Step::Principal), "cannot send current user principal request");
    assert_eq!(message(ErrorKind::MalformedResponse, Step::Principal), "cannot parse current user principal response");
    assert_eq!(message(ErrorKind::Transport, Step::HomeSet), "cannot send addressbook home set request");
    assert_eq!(message(ErrorKind::MalformedResponse, Step::HomeSet), "cannot parse addressbook home set response");
    assert_eq!(message(ErrorKind::Transport, Step::Collection), "cannot send addressbook request");
    assert_eq!(message(ErrorKind::MalformedResponse, Step::Collection), "cannot parse addressbook response");
    assert_eq!(message(ErrorKind::MissingRequiredProperty, Step::ChangeTag), "missing property in ctag response");
    assert_eq!(message(ErrorKind::DateParse, Step::Records), "invalid date in address data response");
    assert_eq!(message(ErrorKind::Transport, Step::Records), "cannot send address data request");
}
