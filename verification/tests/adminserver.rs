use port_forwarder::adminserver::{
    authenticate, basic_payload, choose_or, convert_error, find_char, number, split_credentials,
    start,
    stop, AuthError, RangeHeader, SimpleOperationResult, ISE,
};
use port_forwarder::manager::Status;

fn creds(user: &str, pass: &str) -> (Option<String>, Option<String>) {
    (Some(user.to_string()), Some(pass.to_string()))
}

#[test]
fn a_range_is_aligned_to_the_file() {
    assert_eq!(RangeHeader { start: None, end: None }.align(100), (0, 100));
    assert_eq!(RangeHeader { start: Some(10), end: None }.align(100), (10, 100));
    assert_eq!(RangeHeader { start: None, end: Some(50) }.align(100), (0, 50));
    assert_eq!(RangeHeader { start: Some(10), end: Some(20) }.align(100), (10, 20));
    assert_eq!(RangeHeader { start: Some(200), end: None }.align(100), (100, 100));
    assert_eq!(RangeHeader { start: Some(10), end: Some(200) }.align(100), (10, 100));
    assert_eq!(RangeHeader { start: Some(30), end: Some(20) }.align(100), (30, 30));
    assert_eq!(RangeHeader { start: Some(200), end: Some(300) }.align(100), (100, 100));
    assert_eq!(RangeHeader { start: Some(5), end: Some(5) }.align(0), (0, 0));
}

#[test]
fn a_range_has_a_value_when_an_end_is_named() {
    assert!(!RangeHeader { start: None, end: None }.has_value());
    assert!(RangeHeader { start: Some(0), end: None }.has_value());
    assert!(RangeHeader { start: None, end: Some(0) }.has_value());
    assert!(RangeHeader { start: Some(1), end: Some(2) }.has_value());
}

#[test]
fn the_right_credentials_authenticate() {
    let (u, p) = creds("admin", "admin");
    let who = authenticate(Some("Basic YWRtaW46YWRtaW4="), &u, &p).unwrap();
    assert_eq!(who.username, "admin");
    let who = authenticate(Some("bAsIc   YWRtaW46YWRtaW4=  "), &u, &p).unwrap();
    assert_eq!(who.username, "admin");
    let who = authenticate(Some("BasicYWRtaW46YWRtaW4="), &u, &p).unwrap();
    assert_eq!(who.username, "admin");
}

#[test]
fn wrong_credentials_are_turned_away() {
    let (u, p) = creds("admin", "secret");
    assert_eq!(authenticate(Some("Basic YWRtaW46YWRtaW4="), &u, &p).unwrap_err(), AuthError {});
    let (u, p) = creds("root", "admin");
    assert!(authenticate(Some("Basic YWRtaW46YWRtaW4="), &u, &p).is_err());
}

#[test]
fn a_missing_or_malformed_header_is_turned_away() {
    let (u, p) = creds("admin", "admin");
    assert!(authenticate(None, &u, &p).is_err());
    assert!(authenticate(Some(""), &u, &p).is_err());
    assert!(authenticate(Some("Bearer YWRtaW46YWRtaW4="), &u, &p).is_err());
    assert!(authenticate(Some("Basi"), &u, &p).is_err());
    assert!(authenticate(Some("Basic not-base64!"), &u, &p).is_err());
    assert!(authenticate(Some("Basic YWRtaW4="), &u, &p).is_err());
    assert!(authenticate(Some("Basic /w=="), &u, &p).is_err());
    assert!(authenticate(Some("Basic YWRtaW46YWRtaW4"), &u, &p).is_err());
}

#[test]
fn the_password_may_hold_colons() {
    let (u, p) = creds("user", "pa:ss:word");
    let who = authenticate(Some("Basic dXNlcjpwYTpzczp3b3Jk"), &u, &p).unwrap();
    assert_eq!(who.username, "user");
    let (u, p) = creds("", "");
    assert_eq!(authenticate(Some("Basic Og=="), &u, &p).unwrap().username, "");
}

#[test]
fn without_credentials_every_request_is_anonymous() {
    assert_eq!(authenticate(None, &None, &None).unwrap().username, "anonymous");
    assert_eq!(authenticate(Some("garbage"), &None, &None).unwrap().username, "anonymous");
    assert_eq!(authenticate(Some("Basic YWRtaW46YWRtaW4="), &None, &None).unwrap().username, "anonymous");
}

#[test]
fn half_set_credentials_admit_nobody() {
    let user = Some("admin".to_string());
    assert!(authenticate(Some("Basic YWRtaW46YWRtaW4="), &user, &None).is_err());
    assert!(authenticate(Some("Basic YWRtaW46YWRtaW4="), &None, &user).is_err());
    assert!(authenticate(None, &user, &None).is_err());
}

#[test]
fn the_payload_is_the_decoded_text() {
    assert_eq!(basic_payload("Basic aGVsbG86d29ybGQ="), Some("hello:world".to_string()));
    assert_eq!(basic_payload("basic\taGVsbG86d29ybGQ=\r\n"), Some("hello:world".to_string()));
    assert_eq!(basic_payload("Basic "), Some("".to_string()));
    assert_eq!(basic_payload("Basic"), Some("".to_string()));
    assert_eq!(basic_payload("Basic w7w6w6Q="), Some("ü:ä".to_string()));
    assert_eq!(basic_payload("Digest aGVsbG86d29ybGQ="), None);
    assert_eq!(basic_payload("Basic aGVsbG8 6d29ybGQ="), None);
}

#[test]
fn credentials_split_at_the_first_colon() {
    assert_eq!(split_credentials("a:b"), Some(("a".to_string(), "b".to_string())));
    assert_eq!(split_credentials("a:b:c"), Some(("a".to_string(), "b:c".to_string())));
    assert_eq!(split_credentials(":"), Some(("".to_string(), "".to_string())));
    assert_eq!(split_credentials("ü:ä"), Some(("ü".to_string(), "ä".to_string())));
    assert_eq!(split_credentials("nocolon"), None);
    assert_eq!(split_credentials(""), None);
}

#[test]
fn find_char_counts_characters() {
    assert_eq!(find_char("abc", 'a'), Some(0));
    assert_eq!(find_char("abcabc", 'c'), Some(2));
    assert_eq!(find_char("üü:x", ':'), Some(2));
    assert_eq!(find_char("abc", 'd'), None);
    assert_eq!(find_char("", 'a'), None);
}

#[test]
fn choose_or_prefers_the_value() {
    assert_eq!(choose_or(&Some(8080u16), 48888), 8080);
    assert_eq!(choose_or(&None, 48888u16), 48888);
    assert_eq!(choose_or(&Some("a".to_string()), "b".to_string()), "a");
    assert_eq!(choose_or(&None, "b".to_string()), "b");
}

#[test]
fn a_server_failure_carries_the_text_of_the_error() {
    assert_eq!(ISE::from("disk full").message, "disk full");
    assert_eq!(ISE::from(404u32).message, "404");
    let ok: Result<u8, String> = Ok(7);
    assert_eq!(convert_error(ok).unwrap(), 7);
    let bad: Result<u8, String> = Err("no such file".to_string());
    assert_eq!(convert_error(bad).unwrap_err().message, "no such file");
}

#[test]
fn operation_results_say_what_happened() {
    let r = SimpleOperationResult::ok(Some("done".to_string()));
    assert_eq!((r.success, r.changed, r.message.as_deref()), (true, true, Some("done")));
    let r = SimpleOperationResult::ok(None);
    assert_eq!((r.success, r.changed, r.message), (true, true, None));
    let r = SimpleOperationResult::ok_no_change(None);
    assert_eq!((r.success, r.changed, r.message), (true, false, None));
    let r = SimpleOperationResult::fail("why");
    assert_eq!((r.success, r.changed, r.message.as_deref()), (false, false, Some("why")));
}

#[test]
fn a_stop_request_depends_on_the_state() {
    let (do_stop, r) = stop(Status::STARTED);
    assert!(do_stop);
    assert_eq!((r.success, r.changed, r.message), (true, true, None));
    let (do_stop, r) = stop(Status::STOPPED);
    assert!(!do_stop);
    assert_eq!((r.success, r.changed, r.message), (true, false, None));
    for status in [Status::STARTING, Status::STOPPING] {
        let (do_stop, r) = stop(status);
        assert!(!do_stop);
        assert_eq!((r.success, r.changed, r.message.as_deref()), (false, false, Some("should not happen")));
    }
}

#[test]
fn a_start_request_starts_only_a_stopped_gateway() {
    assert!(start(Status::STOPPED).is_none());
    for status in [Status::STARTING, Status::STARTED, Status::STOPPING] {
        let r = start(status).unwrap();
        assert_eq!((r.success, r.changed, r.message), (true, false, None));
    }
}

#[test]
fn a_range_header_names_bytes() {
    assert_eq!(RangeHeader::parse("bytes=0-499"), RangeHeader { start: Some(0), end: Some(499) });
    assert_eq!(RangeHeader::parse("bytes=500-"), RangeHeader { start: Some(500), end: None });
    assert_eq!(RangeHeader::parse("bytes=-500"), RangeHeader { start: None, end: Some(500) });
    assert_eq!(RangeHeader::parse("bytes=-"), RangeHeader { start: None, end: None });
    assert_eq!(RangeHeader::parse("BYTES = 10 - 20 "), RangeHeader { start: Some(10), end: Some(20) });
    assert_eq!(RangeHeader::parse("bytes=007-08"), RangeHeader { start: Some(7), end: Some(8) });
}

#[test]
fn a_header_of_another_form_names_no_range() {
    let none = RangeHeader { start: None, end: None };
    assert_eq!(RangeHeader::parse(""), none);
    assert_eq!(RangeHeader::parse("items=0-5"), none);
    assert_eq!(RangeHeader::parse("bytes=0-5,10-20"), none);
    assert_eq!(RangeHeader::parse("bytes=a-b"), none);
    assert_eq!(RangeHeader::parse(" bytes=0-5"), none);
    assert_eq!(RangeHeader::parse("bytes 0-5"), none);
}

#[test]
fn a_number_too_large_is_left_out() {
    assert_eq!(
        RangeHeader::parse("bytes=99999999999999999999999999-5"),
        RangeHeader { start: None, end: Some(5) }
    );
    assert_eq!(
        RangeHeader::parse("bytes=1-\u{ff15}"),
        RangeHeader { start: Some(1), end: None }
    );
}

#[test]
fn number_reads_decimal_digits() {
    assert_eq!(number("0"), Some(0));
    assert_eq!(number("42"), Some(42));
    assert_eq!(number("0042"), Some(42));
    assert_eq!(number(&usize::MAX.to_string()), Some(usize::MAX));
    assert_eq!(number(&format!("{}0", usize::MAX)), None);
    assert_eq!(number(&(usize::MAX as u128 + 1).to_string()), None);
    assert_eq!(number(""), None);
    assert_eq!(number("+5"), None);
    assert_eq!(number("-5"), None);
    assert_eq!(number("5 "), None);
    assert_eq!(number("1a"), None);
    assert_eq!(number("\u{ff15}"), None);
}

#[test]
fn white_space_around_the_payload_is_dropped() {
    for space in ['\t', '\n', '\u{b}', '\u{c}', '\r', ' ', '\u{85}', '\u{a0}', '\u{1680}', '\u{2000}',
        '\u{200a}', '\u{2028}', '\u{2029}', '\u{202f}', '\u{205f}', '\u{3000}']
    {
        let header = format!("Basic{space}aGVsbG86d29ybGQ={space}{space}");
        assert_eq!(basic_payload(&header), Some("hello:world".to_string()));
    }
    for other in ['\u{1c}', '\u{200b}', '\u{feff}', '_', '\0'] {
        let header = format!("Basic {other}aGVsbG86d29ybGQ=");
        assert_eq!(basic_payload(&header), None);
    }
}

#[test]
fn a_server_failure_keeps_a_text_whole() {
    assert_eq!(ISE::from_text("disk full").message, "disk full");
    assert_eq!(ISE::from_text("").message, "");
    assert_eq!(ISE::from_text("größe: 5").message, "größe: 5");
}
