use contact_manager::compl::Match;
use contact_manager::mail::{read_email_body, read_msg, uid_set, Error, PAGE};

fn uids(count: u32) -> Vec<String> {
    (1..=count).map(|n| n.to_string()).collect()
}

#[test]
fn uid_set_joins_with_commas() {
    assert_eq!(uid_set(&vec![]), "");
    assert_eq!(uid_set(&uids(1)), "1");
    assert_eq!(uid_set(&uids(3)), "1,2,3");
    assert_eq!(uid_set(&vec!["42".to_string(), "7".to_string()]), "42,7");
}

#[test]
fn uid_set_stops_at_a_page() {
    assert_eq!(PAGE, 20);
    assert_eq!(uid_set(&uids(19)), "1,2,3,4,5,6,7,8,9,10,11,12,13,14,15,16,17,18,19");
    assert_eq!(uid_set(&uids(20)), "1,2,3,4,5,6,7,8,9,10,11,12,13,14,15,16,17,18,19,20");
    assert_eq!(uid_set(&uids(21)), "1,2,3,4,5,6,7,8,9,10,11,12,13,14,15,16,17,18,19,20");
    assert_eq!(uid_set(&uids(500)), "1,2,3,4,5,6,7,8,9,10,11,12,13,14,15,16,17,18,19,20");
}

#[test]
fn a_body_is_handed_on() {
    assert_eq!(read_email_body("7", "plain", Some("hello".to_string())), Ok("hello".to_string()));
    assert_eq!(read_email_body("7", "plain", Some(" ".to_string())), Ok(" ".to_string()));
}

#[test]
fn a_message_without_such_a_part() {
    assert_eq!(
        read_email_body("7", "html", Some(String::new())),
        Err(Error::ReadEmailEmptyPartError("7".to_string(), "html".to_string()))
    );
}

#[test]
fn a_uid_without_a_message() {
    assert_eq!(read_email_body("7", "plain", None), Err(Error::ReadEmailNotFoundError("7".to_string())));
    assert_eq!(read_msg("9", None), Err(Error::ReadEmailNotFoundError("9".to_string())));
}

#[test]
fn a_message_is_handed_on() {
    assert_eq!(read_msg("9", Some(b"From: a\r\n\r\nhi".to_vec())), Ok(b"From: a\r\n\r\nhi".to_vec()));
    assert_eq!(read_msg("9", Some(vec![])), Ok(vec![]));
}

#[test]
fn mail_error_messages() {
    assert_eq!(Error::CreateTlsConnectorError("no tls".to_string()).message(), "(imap): no tls");
    assert_eq!(Error::CreateImapSession("bad login".to_string()).message(), "(imap): bad login");
    assert_eq!(Error::ParseEmailError("bad header".to_string()).message(), "(imap): bad header");
    assert_eq!(
        Error::ReadEmailNotFoundError("12".to_string()).message(),
        "(imap): no email found for uid 12"
    );
    assert_eq!(
        Error::ReadEmailEmptyPartError("12".to_string(), "html".to_string()).message(),
        "(imap): no html content found for uid 12"
    );
    assert_eq!(
        Error::ExtractAttachmentsEmptyError("12".to_string()).message(),
        "(imap): no attachment found for uid 12"
    );
}

#[test]
fn completion_is_matched_with_its_shell() {
    assert_eq!(contact_manager::compl::matches(Some("zsh")), Some(Match::Generate("zsh")));
    assert_eq!(contact_manager::compl::matches(Some("")), Some(Match::Generate("")));
    assert_eq!(contact_manager::compl::matches(None), None);
}
