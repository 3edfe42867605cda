use ashttp::BadRequestKind;
use ashttp::Connection;
use ashttp::ConnectionOptions;
use ashttp::Error;
use ashttp::Progress;

fn new_conn() -> Connection {
    Connection::new(&ConnectionOptions::new(4096, 4096, true))
}

/// Drive a connection over the given chunks, then signal end of stream.
/// Returns the last advance result.
fn drive(conn: &mut Connection, chunks: &[&[u8]]) -> Result<Progress, Error> {
    let mut last = Ok(Progress::NeedRead);
    for chunk in chunks {
        assert!(!conn.at_end_of_stream());
        conn.note_read(chunk);
        last = conn.advance();
        match &last {
            Ok(Progress::NeedRead) => continue,
            _ => return last,
        }
    }
    last
}

const SIMPLE: &[u8] = b"GET /a/b?x=1 HTTP/1.1\r\nHost: example.com\r\n\r\n";

#[test]
fn resolves_absolute_url() {
    let mut conn = new_conn();
    let r = drive(&mut conn, &[SIMPLE]);
    assert_eq!(r, Ok(Progress::HaveRequest));
    assert!(conn.is_dispatching());
    let req = conn.request();
    assert_eq!(req.url.as_str(), "http://example.com/a/b?x=1");
    assert_eq!(req.head.method.as_str(), "GET");
    assert_eq!(req.head.target.as_str(), "/a/b?x=1");
    assert_eq!(req.head.version.as_str(), "HTTP/1.1");
}

#[test]
fn resolves_absolute_url_with_port() {
    let mut conn = new_conn();
    let r = drive(&mut conn, &[b"GET / HTTP/1.1\r\nHost: example.com:8080\r\n\r\n"]);
    assert_eq!(r, Ok(Progress::HaveRequest));
    assert_eq!(conn.request().url.as_str(), "http://example.com:8080/");
}

#[test]
fn chunk_boundaries_do_not_matter() {
    // One chunk.
    let mut one = new_conn();
    let r1 = drive(&mut one, &[SIMPLE]);
    assert_eq!(r1, Ok(Progress::HaveRequest));

    // Byte by byte.
    let mut tiny = new_conn();
    let singles: Vec<&[u8]> = SIMPLE.chunks(1).collect();
    let r2 = drive(&mut tiny, &singles);
    assert_eq!(r2, Ok(Progress::HaveRequest));

    let a = one.request();
    let b = tiny.request();
    assert_eq!(a.url, b.url);
    assert_eq!(a.head.method, b.head.method);
    assert_eq!(a.head.target, b.head.target);
    assert_eq!(a.head.version, b.head.version);
    assert_eq!(a.head.fields, b.head.fields);
}

#[test]
fn eos_before_any_byte_is_clean_close() {
    let mut conn = new_conn();
    conn.note_read(&[]);
    let r = conn.advance();
    assert_eq!(r, Ok(Progress::Closed));
    assert!(conn.is_closed());
}

#[test]
fn eos_mid_head_is_truncated() {
    let mut conn = new_conn();
    conn.note_read(b"GET / HT");
    assert_eq!(conn.advance(), Ok(Progress::NeedRead));
    conn.note_read(&[]);
    let r = conn.advance();
    assert_eq!(r, Err(Error::TruncatedRequest));
    assert!(conn.is_closed());
}

#[test]
fn non_origin_target_rejected() {
    let mut conn = new_conn();
    let r = drive(&mut conn, &[b"OPTIONS * HTTP/1.1\r\nHost: example.com\r\n\r\n"]);
    assert_eq!(r, Err(Error::BadRequest(BadRequestKind::UnsupportedTarget)));
    assert!(conn.is_closed());
}

#[test]
fn missing_host_rejected() {
    let mut conn = new_conn();
    let r = drive(&mut conn, &[b"GET /ok HTTP/1.1\r\nAccept: */*\r\n\r\n"]);
    assert_eq!(r, Err(Error::BadRequest(BadRequestKind::MissingHost)));
}

#[test]
fn host_lookup_is_case_insensitive() {
    let mut conn = new_conn();
    let r = drive(&mut conn, &[b"GET / HTTP/1.1\r\nhOsT: example.com\r\n\r\n"]);
    assert_eq!(r, Ok(Progress::HaveRequest));
    assert_eq!(conn.request().url.as_str(), "http://example.com/");
}

#[test]
fn unparsable_host_rejected_as_invalid_url() {
    let mut conn = new_conn();
    let r = drive(&mut conn, &[b"GET / HTTP/1.1\r\nHost: exa mple\r\n\r\n"]);
    assert_eq!(r, Err(Error::BadRequest(BadRequestKind::InvalidUrl)));
}

#[test]
fn unknown_http_version_rejected_not_panicking() {
    // The codec buffers the version token unvalidated and judges it
    // only when the head is finished; the rejection must be an error
    // value, never a crash.
    let mut conn = new_conn();
    let r = drive(&mut conn, &[b"GET / HTTP/1.2\r\nHost: example.com\r\n\r\n"]);
    assert_eq!(r, Err(Error::BadRequest(BadRequestKind::Grammar)));
    assert!(conn.is_closed());
}

#[test]
fn bad_request_line_terminator_rejected() {
    let mut conn = new_conn();
    let r = drive(&mut conn, &[b"GET / HTTP/1.1XXHost: example.com\r\n\r\n"]);
    assert_eq!(r, Err(Error::BadRequest(BadRequestKind::Grammar)));
}

#[test]
fn oversized_head_rejected_whatever_the_chunking() {
    // A head whose intake passes the per-head cap is rejected, and the
    // driver-style loop (reads bounded by read_capacity) terminates.
    let mut request: Vec<u8> = b"GET / HTTP/1.1\r\nX-Filler: ".to_vec();
    request.extend(std::iter::repeat(b'a').take(70_000));
    request.extend_from_slice(b"\r\nHost: example.com\r\n\r\n");

    let mut conn = new_conn();
    let mut offset = 0usize;
    let outcome = loop {
        let cap = conn.read_capacity();
        if cap == 0 {
            match conn.advance() {
                Ok(Progress::NeedRead) => panic!("no room and still reading"),
                other => break other,
            }
        }
        let take = cap.min(request.len() - offset);
        conn.note_read(&request[offset..offset + take]);
        offset += take;
        match conn.advance() {
            Ok(Progress::NeedRead) => continue,
            other => break other,
        }
    };
    assert_eq!(outcome, Err(Error::BadRequest(BadRequestKind::Grammar)));
    assert!(conn.is_closed());
}

#[test]
fn ungrammatical_bytes_rejected() {
    let mut conn = new_conn();
    let r = drive(&mut conn, &[b"\x01\x02\x03\x04 nonsense\r\n\r\n"]);
    assert_eq!(r, Err(Error::BadRequest(BadRequestKind::Grammar)));
}

#[test]
fn keepalive_decodes_two_requests_independently() {
    let mut conn = new_conn();
    let r = drive(&mut conn, &[b"GET /first HTTP/1.1\r\nHost: one.example\r\n\r\n"]);
    assert_eq!(r, Ok(Progress::HaveRequest));
    assert_eq!(conn.request().url.as_str(), "http://one.example/first");

    assert_eq!(conn.finish_dispatch(true), Ok(Progress::NeedRead));
    assert!(conn.is_reading());

    let r2 = drive(&mut conn, &[b"GET /second HTTP/1.1\r\nHost: two.example\r\n\r\n"]);
    assert_eq!(r2, Ok(Progress::HaveRequest));
    assert_eq!(conn.request().url.as_str(), "http://two.example/second");
}

#[test]
fn dispatch_failure_leaves_state_usable() {
    let mut conn = new_conn();
    let r = drive(&mut conn, &[b"GET /first HTTP/1.1\r\nHost: one.example\r\n\r\n"]);
    assert_eq!(r, Ok(Progress::HaveRequest));

    // The failure is surfaced, but the machine is left exactly as a
    // success would have left it: reading the next head.
    assert_eq!(conn.finish_dispatch(false), Err(Error::Dispatch));
    assert!(conn.is_reading());

    let r2 = drive(&mut conn, &[b"GET /second HTTP/1.1\r\nHost: two.example\r\n\r\n"]);
    assert_eq!(r2, Ok(Progress::HaveRequest));
    assert_eq!(conn.request().url.as_str(), "http://two.example/second");
}

#[test]
fn close_without_keepalive() {
    let mut conn = Connection::new(&ConnectionOptions::new(4096, 4096, false));
    let r = drive(&mut conn, &[SIMPLE]);
    assert_eq!(r, Ok(Progress::HaveRequest));
    assert_eq!(conn.finish_dispatch(true), Ok(Progress::Closed));
    assert!(conn.is_closed());
}
