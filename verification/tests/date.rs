use contact_manager::date_parser::{deserialize, instant, LastModified, FIRST_SECOND, LAST_SECOND};
use contact_manager::error::ErrorKind;

#[test]
fn a_date_is_read_as_seconds_since_the_epoch() {
    assert_eq!(deserialize("Wed, 18 Feb 2015 23:16:09 GMT"), Ok(LastModified { value: 1424301369 }));
    assert_eq!(deserialize("Tue, 1 Jul 2003 10:52:37 +0200"), Ok(LastModified { value: 1057049557 }));
    assert_eq!(deserialize("Thu, 01 Jan 1970 00:00:00 +0000"), Ok(LastModified { value: 0 }));
    assert_eq!(deserialize("1 Jan 1970 00:00:00 -0100"), Ok(LastModified { value: 3600 }));
}

#[test]
fn what_is_no_date_is_an_error() {
    assert_eq!(deserialize(""), Err(ErrorKind::DateParse));
    assert_eq!(deserialize("yesterday"), Err(ErrorKind::DateParse));
    assert_eq!(deserialize("2015-02-18T23:16:09Z"), Err(ErrorKind::DateParse));
    assert_eq!(deserialize("Thu, 18 Feb 2015 23:16:09 GMT"), Err(ErrorKind::DateParse));
    assert_eq!(deserialize("Wed, 30 Feb 2015 23:16:09 GMT"), Err(ErrorKind::DateParse));
    assert_eq!(deserialize("1424301369"), Err(ErrorKind::DateParse));
}

#[test]
fn instant_of_a_parsed_date() {
    assert_eq!(instant(Some(42)), Ok(LastModified { value: 42 }));
    assert_eq!(instant(Some(-1)), Ok(LastModified { value: -1 }));
    assert_eq!(instant(None), Err(ErrorKind::DateParse));
}

#[test]
fn a_date_is_written_in_utc() {
    let write = |value: i64| LastModified { value }.to_rfc2822();
    assert_eq!(write(1424301369), Some("Wed, 18 Feb 2015 23:16:09 +0000".to_string()));
    assert_eq!(write(0), Some("Thu, 1 Jan 1970 00:00:00 +0000".to_string()));
    assert_eq!(write(1614834367), Some("Thu, 4 Mar 2021 05:06:07 +0000".to_string()));
    assert_eq!(write(-1), Some("Wed, 31 Dec 1969 23:59:59 +0000".to_string()));
}

#[test]
fn the_format_ends_with_its_four_digit_years() {
    let write = |value: i64| LastModified { value }.to_rfc2822();
    assert_eq!(FIRST_SECOND, -62_167_219_200);
    assert_eq!(LAST_SECOND, 253_402_300_799);
    assert_eq!(write(LAST_SECOND), Some("Fri, 31 Dec 9999 23:59:59 +0000".to_string()));
    assert_eq!(write(FIRST_SECOND), Some("Sat, 1 Jan 0000 00:00:00 +0000".to_string()));
    assert_eq!(write(LAST_SECOND + 1), None);
    assert_eq!(write(FIRST_SECOND - 1), None);
    assert_eq!(write(i64::MAX), None);
    assert_eq!(write(i64::MIN), None);
}

#[test]
fn writing_and_reading_gives_the_same_instant() {
    let values: [i64; 16] = [
        FIRST_SECOND,
        FIRST_SECOND + 1,
        -62_135_596_800,
        -59_011_459_200,
        -30_610_224_000,
        -2_208_988_800,
        -1,
        0,
        1,
        951_782_400,
        1_057_049_557,
        1_424_301_369,
        1_709_251_199,
        4_102_444_800,
        LAST_SECOND - 1,
        LAST_SECOND,
    ];
    for value in values {
        let stamp = LastModified { value };
        let text = stamp.to_rfc2822().unwrap();
        assert_eq!(deserialize(&text), Ok(stamp), "{}", text);
    }
}

#[test]
fn reading_and_writing_normalises_the_zone() {
    let stamp = deserialize("Tue, 1 Jul 2003 10:52:37 +0200").unwrap();
    let text = stamp.to_rfc2822().unwrap();
    assert_eq!(text, "Tue, 1 Jul 2003 08:52:37 +0000");
    assert_eq!(deserialize(&text), Ok(stamp));
}
