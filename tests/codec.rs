use blub::codec::{
    decode, read_header, PageRecord, RawRecordHeader, RejectReason, HEADER_SIZE, MAX_BODY_LEN,
    MAX_TITLE_LEN,
};

fn header(url_len: u16, title_len: u16, body_len: u32) -> Vec<u8> {
    let mut h = Vec::new();
    h.extend_from_slice(&url_len.to_le_bytes());
    h.extend_from_slice(&title_len.to_le_bytes());
    h.extend_from_slice(&body_len.to_le_bytes());
    h
}

fn record(url: &[u8], title: &[u8], body: &[u8]) -> Vec<u8> {
    let mut b = header(url.len() as u16, title.len() as u16, body.len() as u32);
    b.extend_from_slice(url);
    b.extend_from_slice(title);
    b.extend_from_slice(body);
    b
}

#[test]
fn decode_scenario_abc_title_body() {
    let buf = record(b"abc", b"title", b"body");
    assert_eq!(buf.len(), HEADER_SIZE + 3 + 5 + 4);
    let rec = decode(&buf).unwrap();
    assert_eq!(
        rec,
        PageRecord { url: "abc".to_string(), title: "title".to_string(), body: "body".to_string() }
    );
}

#[test]
fn decode_shorter_than_header_is_truncated() {
    assert_eq!(decode(&[]), Err(RejectReason::Truncated));
    assert_eq!(decode(&[3, 0, 5, 0, 4, 0, 0]), Err(RejectReason::Truncated));
}

#[test]
fn decode_too_short_payload_is_size_mismatch() {
    let mut buf = record(b"abc", b"title", b"body");
    buf.pop();
    assert_eq!(decode(&buf), Err(RejectReason::SizeMismatch { expected: 20, actual: 19 }));
}

#[test]
fn decode_too_long_payload_is_size_mismatch() {
    let mut buf = record(b"abc", b"title", b"body");
    buf.push(b'x');
    assert_eq!(decode(&buf), Err(RejectReason::SizeMismatch { expected: 20, actual: 21 }));
}

#[test]
fn decode_header_only_record() {
    let buf = header(0, 0, 0);
    let rec = decode(&buf).unwrap();
    assert_eq!(rec, PageRecord { url: String::new(), title: String::new(), body: String::new() });
}

#[test]
fn decode_caps_long_title_and_body() {
    let title = vec![b't'; 2000];
    let mut body = vec![b'b'; 60000];
    body[MAX_BODY_LEN] = b'!';
    let buf = record(b"u", &title, &body);
    let rec = decode(&buf).unwrap();
    assert_eq!(rec.url, "u");
    assert_eq!(rec.title.len(), MAX_TITLE_LEN);
    assert_eq!(rec.title.len(), 1024);
    assert_eq!(rec.body.len(), MAX_BODY_LEN);
    assert_eq!(rec.body.len(), 51200);
    assert!(rec.body.bytes().all(|c| c == b'b'));
}

#[test]
fn decode_body_starts_after_full_declared_title() {
    let mut title = vec![b't'; 1500];
    title[1400] = b'X';
    let buf = record(b"u", &title, b"the body");
    let rec = decode(&buf).unwrap();
    assert_eq!(rec.body, "the body");
    assert!(!rec.title.contains('X'));
}

#[test]
fn decode_invalid_utf8_field_becomes_empty() {
    let buf = record(b"abc", &[0xff, 0xfe], b"body");
    let rec = decode(&buf).unwrap();
    assert_eq!(rec.url, "abc");
    assert_eq!(rec.title, "");
    assert_eq!(rec.body, "body");
}

#[test]
fn decode_multibyte_text() {
    let buf = record("h\u{e9}".as_bytes(), "t\u{1f600}".as_bytes(), b"b");
    let rec = decode(&buf).unwrap();
    assert_eq!(rec.url, "h\u{e9}");
    assert_eq!(rec.title, "t\u{1f600}");
}

#[test]
fn decode_twice_gives_same_result() {
    let good = record(b"abc", b"title", b"body");
    assert_eq!(decode(&good), decode(&good));
    let bad = vec![1u8, 2, 3];
    assert_eq!(decode(&bad), decode(&bad));
}

#[test]
fn header_is_little_endian() {
    let h = read_header(&[0x34, 0x12, 0x01, 0x00, 0x04, 0x03, 0x02, 0x01]);
    assert_eq!(h, RawRecordHeader { url_len: 0x1234, title_len: 1, body_len: 0x01020304 });
    assert_eq!(h.expected_size(), 8 + 0x1234 + 1 + 0x01020304);
}

#[test]
fn expected_size_at_largest_header() {
    let h = RawRecordHeader { url_len: u16::MAX, title_len: u16::MAX, body_len: u32::MAX };
    assert_eq!(h.expected_size(), 8 + 65535 + 65535 + 4294967295);
    let buf = header(u16::MAX, u16::MAX, u32::MAX);
    assert_eq!(
        decode(&buf),
        Err(RejectReason::SizeMismatch { expected: 8 + 65535 + 65535 + 4294967295, actual: 8 })
    );
}
