use ashttp::Head;
use ashttp::ReadBuf;
use ashttp::Req;
use ashttp::BadRequestKind;
use ashttp::Error;

fn cursors_ok(b: &ReadBuf) {
    assert!(b.head <= b.tail);
    assert!(b.tail <= b.buf.len());
}

#[test]
fn buffer_cursors_stay_in_bounds() {
    let mut b = ReadBuf::new(16);
    cursors_ok(&b);
    assert_eq!(b.buf.len(), 16);
    assert!(b.is_empty());
    assert!(!b.at_eos());

    b.note_read(b"abc");
    cursors_ok(&b);
    assert_eq!(b.tail - b.head, 3);
    assert_eq!(b.free_len(), 13);

    b.note_read(b"defgh");
    cursors_ok(&b);
    assert_eq!(b.tail - b.head, 8);

    // A zero-length read signals end of stream and adds no bytes.
    b.note_read(&[]);
    cursors_ok(&b);
    assert!(b.at_eos());
    assert_eq!(b.tail - b.head, 8);
}

#[test]
fn buffer_compacts_only_when_fully_drained() {
    let mut b = ReadBuf::new(8);
    b.note_read(b"xy");
    b.compact_if_drained();
    // Not drained: cursors untouched.
    assert_eq!(b.head, 0);
    assert_eq!(b.tail, 2);

    // Drain it by hand through the cursor the decoder would advance.
    b.head = 2;
    b.compact_if_drained();
    assert_eq!(b.head, 0);
    assert_eq!(b.tail, 0);
    assert_eq!(b.free_len(), 8);
    cursors_ok(&b);
}

fn head_of(method: &str, target: &str, fields: &[(&str, &str)]) -> Head {
    Head {
        method: method.to_string(),
        target: target.to_string(),
        version: "HTTP/1.1".to_string(),
        fields: fields.iter().map(|(n, v)| (n.to_string(), v.to_string())).collect(),
    }
}

#[test]
fn req_rejects_non_origin_target_whatever_the_fields() {
    let r = Req::new(head_of("GET", "http://absolute.example/", &[("Host", "ok.example")]));
    assert_eq!(r.err(), Some(Error::BadRequest(BadRequestKind::UnsupportedTarget)));
    let r = Req::new(head_of("OPTIONS", "*", &[]));
    assert_eq!(r.err(), Some(Error::BadRequest(BadRequestKind::UnsupportedTarget)));
}

#[test]
fn req_rejects_missing_host_whatever_the_target() {
    let r = Req::new(head_of("GET", "/fine", &[("Accept", "*/*")]));
    assert_eq!(r.err(), Some(Error::BadRequest(BadRequestKind::MissingHost)));
}

#[test]
fn req_resolves_url_from_first_host_field() {
    let req = Req::new(head_of(
        "GET",
        "/a/b?x=1",
        &[("Date", "today"), ("HOST", "example.com"), ("Host", "other.example")],
    ))
    .unwrap();
    assert_eq!(req.url.as_str(), "http://example.com/a/b?x=1");
}
