use port_forwarder::tlsheader::{
    parse, pre_check, read_extension, read_length_and_skip, server_name_bytes, skip, to_int,
    SNIError, SniFailure,
};

fn extension(kind: u16, data: &[u8]) -> Vec<u8> {
    let mut out = vec![(kind >> 8) as u8, kind as u8, (data.len() >> 8) as u8, data.len() as u8];
    out.extend_from_slice(data);
    out
}

fn server_name(host: &[u8]) -> Vec<u8> {
    let list = host.len() + 3;
    let mut data = vec![(list >> 8) as u8, list as u8, 0, (host.len() >> 8) as u8, host.len() as u8];
    data.extend_from_slice(host);
    data
}

fn hello_with_extensions(extensions: &[u8]) -> Vec<u8> {
    let mut body = vec![0x03, 0x03];
    body.extend_from_slice(&[7u8; 32]);
    body.push(0);
    body.extend_from_slice(&[0x00, 0x02, 0x13, 0x01]);
    body.extend_from_slice(&[0x01, 0x00]);
    body.extend_from_slice(&[(extensions.len() >> 8) as u8, extensions.len() as u8]);
    body.extend_from_slice(extensions);
    let mut record = vec![0x16, 0x03, 0x01];
    let record_len = body.len() + 4;
    record.extend_from_slice(&[(record_len >> 8) as u8, record_len as u8]);
    record.push(0x01);
    record.extend_from_slice(&[0, (body.len() >> 8) as u8, body.len() as u8]);
    record.extend_from_slice(&body);
    record
}

fn hello_for(host: &[u8]) -> Vec<u8> {
    hello_with_extensions(&extension(0, &server_name(host)))
}

#[test]
fn pre_check_rejects_short_buffer() {
    assert!(!pre_check(&[]));
    assert!(!pre_check(&[0x16, 0x03, 0x01, 0x00, 0x00]));
}

#[test]
fn pre_check_accepts_a_framed_record() {
    assert!(pre_check(&[0x16, 0x03, 0x01, 0x00, 0x01, 0xaa]));
    assert!(pre_check(&[0x16, 0x03, 0x04, 0x00, 0x02, 0xaa, 0xbb]));
}

#[test]
fn pre_check_tests_each_header_byte() {
    assert!(!pre_check(&[0x17, 0x03, 0x01, 0x00, 0x01, 0xaa]));
    assert!(!pre_check(&[0x16, 0x02, 0x01, 0x00, 0x01, 0xaa]));
    assert!(!pre_check(&[0x16, 0x03, 0x00, 0x00, 0x01, 0xaa]));
    assert!(!pre_check(&[0x16, 0x03, 0x05, 0x00, 0x01, 0xaa]));
    assert!(!pre_check(&[0x16, 0x03, 0x01, 0x00, 0x02, 0xaa]));
    assert!(!pre_check(&[0x16, 0x03, 0x01, 0x00, 0x01, 0xaa, 0xbb]));
}

#[test]
fn pre_check_reads_the_length_big_endian() {
    let mut record = vec![0x16, 0x03, 0x03, 0x01, 0x02];
    record.extend_from_slice(&[0u8; 258]);
    assert!(pre_check(&record));
    record.push(0);
    assert!(!pre_check(&record));
}

#[test]
fn to_int_is_big_endian() {
    assert_eq!(to_int(&[]), 0);
    assert_eq!(to_int(&[0x07]), 7);
    assert_eq!(to_int(&[0x01, 0x02]), 258);
    assert_eq!(to_int(&[0x01, 0x02, 0x03]), 66051);
    assert_eq!(to_int(&[0x00, 0x00, 0x01, 0x00]), 256);
}

#[test]
fn skip_drops_bytes_or_fails() {
    assert_eq!(skip(&[1, 2, 3], 1), Some(&[2u8, 3][..]));
    assert_eq!(skip(&[1, 2, 3], 3), Some(&[][..]));
    assert_eq!(skip(&[1, 2, 3], 4), None);
}

#[test]
fn read_length_and_skip_follows_the_prefix() {
    assert_eq!(read_length_and_skip(&[2, 9, 9, 5], 1), Some(&[5u8][..]));
    assert_eq!(read_length_and_skip(&[0, 1, 9, 5, 6], 2), Some(&[5u8, 6][..]));
    assert_eq!(read_length_and_skip(&[0, 5], 1), Some(&[5u8][..]));
    assert_eq!(read_length_and_skip(&[3, 9, 9], 1), None);
    assert_eq!(read_length_and_skip(&[0], 2), None);
    assert_eq!(read_length_and_skip(&[], 1), None);
}

#[test]
fn read_extension_splits_type_data_and_rest() {
    let bytes = [0x00, 0x17, 0x00, 0x02, 0xaa, 0xbb, 0xcc];
    let (rest, kind, data) = read_extension(&bytes).unwrap();
    assert_eq!(kind, 0x17);
    assert_eq!(data, &[0xaa, 0xbb]);
    assert_eq!(rest, &[0xcc]);
    assert!(read_extension(&[0x00, 0x17, 0x00]).is_none());
    assert!(read_extension(&[0x00, 0x17, 0x00, 0x03, 0xaa, 0xbb]).is_none());
}

#[test]
fn parse_finds_the_server_name() {
    let hello = hello_for(b"example.test");
    assert!(pre_check(&hello));
    assert_eq!(parse(&hello).unwrap().sni_host, "example.test");
    assert_eq!(server_name_bytes(&hello).unwrap(), b"example.test");
}

#[test]
fn parse_success_implies_pre_check() {
    let good = hello_for(b"a.b");
    assert!(parse(&good).is_ok() && pre_check(&good));
    let mut longer = good.clone();
    longer.push(0);
    assert!(!pre_check(&longer));
    assert!(parse(&longer).is_err());
    let mut wrong_type = good.clone();
    wrong_type[0] = 0x15;
    assert!(!pre_check(&wrong_type));
    assert!(parse(&wrong_type).is_err());
}

#[test]
fn parse_takes_the_last_server_name_extension() {
    let mut exts = extension(0, &server_name(b"first.test"));
    exts.extend_from_slice(&extension(0x2b, &[0x02, 0x03, 0x04]));
    exts.extend_from_slice(&extension(0, &server_name(b"second.test")));
    let hello = hello_with_extensions(&exts);
    assert_eq!(parse(&hello).unwrap().sni_host, "second.test");
}

#[test]
fn parse_skips_other_extensions() {
    let mut exts = extension(0x0a, &[0x00, 0x02, 0x00, 0x1d]);
    exts.extend_from_slice(&extension(0, &server_name(b"host.example")));
    exts.extend_from_slice(&extension(0x0d, &[]));
    let hello = hello_with_extensions(&exts);
    assert_eq!(parse(&hello).unwrap().sni_host, "host.example");
}

#[test]
fn parse_reads_invalid_utf8_lossily() {
    let hello = hello_for(&[0x66, 0xff, 0x6f]);
    assert_eq!(parse(&hello).unwrap().sni_host, "f\u{fffd}o");
    assert_eq!(server_name_bytes(&hello).unwrap(), &[0x66, 0xff, 0x6f]);
}

#[test]
fn parse_reads_multibyte_utf8() {
    let hello = hello_for("bücher.test".as_bytes());
    assert_eq!(parse(&hello).unwrap().sni_host, "bücher.test");
}

#[test]
fn parse_reports_a_failed_pre_check() {
    let e = parse(&[1, 2, 3]).unwrap_err();
    assert_eq!(e, SNIError { reason: SniFailure::PreCheck, len: 3 });
    assert_eq!(e.message(), "tls header pre check failed (3 bytes)");
}

#[test]
fn parse_reports_a_wrong_handshake_length() {
    let mut hello = hello_for(b"example.test");
    hello[8] = hello[8].wrapping_add(1);
    let e = parse(&hello).unwrap_err();
    assert_eq!(e.reason, SniFailure::HandshakeLength);
    assert_eq!(e.len, hello.len());
    assert_eq!(e.message(), "data length mismatch(inner)");
    let mut high = hello_for(b"example.test");
    high[6] = 1;
    assert_eq!(parse(&high).unwrap_err().reason, SniFailure::HandshakeLength);
    let short = [0x16, 0x03, 0x01, 0x00, 0x03, 0x01, 0x00, 0x00];
    assert_eq!(parse(&short).unwrap_err().reason, SniFailure::HandshakeLength);
}

#[test]
fn parse_reports_a_wrong_inner_version() {
    let mut major = hello_for(b"example.test");
    major[9] = 0x02;
    let e = parse(&major).unwrap_err();
    assert_eq!(e.reason, SniFailure::InnerVersionMajor);
    assert_eq!(e.message(), "expect version byte 0x03 (inner)");
    let mut low = hello_for(b"example.test");
    low[10] = 0x00;
    let e = parse(&low).unwrap_err();
    assert_eq!(e.reason, SniFailure::InnerVersionMinor);
    assert_eq!(e.message(), "only support TLS 1.0 ~ 1.3 (inner)");
    let mut high = hello_for(b"example.test");
    high[10] = 0x05;
    assert_eq!(parse(&high).unwrap_err().reason, SniFailure::InnerVersionMinor);
    let nine = [0x16, 0x03, 0x01, 0x00, 0x04, 0x01, 0x00, 0x00, 0x00];
    assert_eq!(parse(&nine).unwrap_err().reason, SniFailure::InnerVersionMajor);
    let ten = [0x16, 0x03, 0x01, 0x00, 0x05, 0x01, 0x00, 0x00, 0x01, 0x03];
    assert_eq!(parse(&ten).unwrap_err().reason, SniFailure::InnerVersionMinor);
}

#[test]
fn parse_reports_truncated_fields() {
    let eleven = [0x16, 0x03, 0x01, 0x00, 0x06, 0x01, 0x00, 0x00, 0x02, 0x03, 0x03];
    let e = parse(&eleven).unwrap_err();
    assert_eq!(e.reason, SniFailure::Truncated);
    assert_eq!(e.message(), "data length mismatch(fields)");
    let mut long_session = hello_for(b"example.test");
    long_session[43] = 0xff;
    assert_eq!(parse(&long_session).unwrap_err().reason, SniFailure::Truncated);
    let bad_ext = hello_with_extensions(&[0x00, 0x00, 0x00, 0x09, 0x01]);
    assert_eq!(parse(&bad_ext).unwrap_err().reason, SniFailure::Truncated);
    let half_header = hello_with_extensions(&[0x00, 0x00, 0x00]);
    assert_eq!(parse(&half_header).unwrap_err().reason, SniFailure::Truncated);
}

#[test]
fn parse_reports_a_missing_server_name() {
    let none = hello_with_extensions(&extension(0x2b, &[0x02, 0x03, 0x04]));
    let e = parse(&none).unwrap_err();
    assert_eq!(e.reason, SniFailure::NoServerName);
    assert_eq!(e.message(), "extension 0x00 0x00 not found");
    let empty = hello_with_extensions(&[]);
    assert_eq!(parse(&empty).unwrap_err().reason, SniFailure::NoServerName);
}

#[test]
fn parse_reports_a_malformed_server_name() {
    let mut wrong_list = server_name(b"example.test");
    wrong_list[1] += 1;
    let hello = hello_with_extensions(&extension(0, &wrong_list));
    assert_eq!(parse(&hello).unwrap_err().reason, SniFailure::NoServerName);
    let mut wrong_type = server_name(b"example.test");
    wrong_type[2] = 1;
    let hello = hello_with_extensions(&extension(0, &wrong_type));
    assert_eq!(parse(&hello).unwrap_err().reason, SniFailure::NoServerName);
    let mut wrong_name = server_name(b"example.test");
    wrong_name[4] -= 1;
    let hello = hello_with_extensions(&extension(0, &wrong_name));
    assert_eq!(parse(&hello).unwrap_err().reason, SniFailure::NoServerName);
    let hello = hello_with_extensions(&extension(0, &[0x00, 0x00]));
    assert_eq!(parse(&hello).unwrap_err().reason, SniFailure::NoServerName);
    let hello = hello_with_extensions(&extension(0, &[]));
    assert_eq!(parse(&hello).unwrap_err().reason, SniFailure::NoServerName);
}

#[test]
fn parse_accepts_an_empty_server_name() {
    let hello = hello_for(b"");
    assert_eq!(parse(&hello).unwrap().sni_host, "");
}

#[test]
fn parse_accepts_a_large_record() {
    let mut exts = extension(0x15, &[0u8; 1500]);
    exts.extend_from_slice(&extension(0, &server_name(b"big.example")));
    let hello = hello_with_extensions(&exts);
    assert!(hello.len() > 1280);
    assert_eq!(parse(&hello).unwrap().sni_host, "big.example");
}

#[test]
fn pre_check_message_writes_the_length_in_decimal() {
    let e = SNIError { reason: SniFailure::PreCheck, len: 1024 };
    assert_eq!(e.message(), "tls header pre check failed (1024 bytes)");
    let e = SNIError { reason: SniFailure::PreCheck, len: 0 };
    assert_eq!(e.message(), "tls header pre check failed (0 bytes)");
}
