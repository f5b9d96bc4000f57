use aichat_relay::error::RelayError;
use aichat_relay::response::{
    collect_headers, conclude, header_text, status_is_success, Exchange, HttpResponse, RawHeader,
};

fn line(name: &str, value: &[u8]) -> RawHeader {
    RawHeader { name: name.to_string(), value: value.to_vec() }
}

#[test]
fn status_404_is_a_relayed_response() {
    let r = conclude(Exchange::Received {
        status: 404,
        headers: vec![line("content-type", b"text/plain")],
        body: "not here".to_string(),
    })
    .unwrap();
    assert_eq!(r.status, 404);
    assert!(!r.success);
    assert_eq!(r.error, None);
    assert_eq!(r.body, "not here");
    assert_eq!(r.headers.get("content-type"), Some("text/plain"));
}

#[test]
fn success_is_the_2xx_class() {
    assert!(!status_is_success(0));
    assert!(!status_is_success(199));
    assert!(status_is_success(200));
    assert!(status_is_success(204));
    assert!(status_is_success(299));
    assert!(!status_is_success(300));
    assert!(!status_is_success(500));
    assert!(!status_is_success(u16::MAX));
    assert!(HttpResponse::relay(200, &vec![], String::new()).success);
    assert!(!HttpResponse::relay(301, &vec![], String::new()).success);
    assert_eq!(HttpResponse::relay(500, &vec![], String::new()).error, None);
}

#[test]
fn header_value_is_text_when_every_byte_is() {
    assert_eq!(header_text(b"text/html; charset=utf-8"), Some("text/html; charset=utf-8".to_string()));
    assert_eq!(header_text(b""), Some(String::new()));
    assert_eq!(header_text(b"a\tb"), Some("a\tb".to_string()));
    assert_eq!(header_text(b" ~"), Some(" ~".to_string()));
    assert_eq!(header_text(&[0x7f]), None);
    assert_eq!(header_text(&[0x1f]), None);
    assert_eq!(header_text(b"a\nb"), None);
    assert_eq!(header_text(&[b'a', 0x80]), None);
    assert_eq!(header_text("é".as_bytes()), None);
}

#[test]
fn headers_without_text_value_are_dropped() {
    let lines = vec![
        line("x-a", b"1"),
        line("x-bin", &[0xff, 0xfe]),
        line("x-b", b"2"),
    ];
    let h = collect_headers(&lines);
    assert_eq!(h.len(), 2);
    assert_eq!(h.get("x-a"), Some("1"));
    assert_eq!(h.get("x-b"), Some("2"));
    assert_eq!(h.get("x-bin"), None);
}

#[test]
fn later_header_line_wins() {
    let lines = vec![
        line("set-cookie", b"a=1"),
        line("x", b"y"),
        line("set-cookie", b"b=2"),
        line("set-cookie", &[0xff]),
    ];
    let h = collect_headers(&lines);
    assert_eq!(h.len(), 2);
    assert_eq!(h.get("set-cookie"), Some("b=2"));
    assert_eq!(
        h.to_vec(),
        vec![("set-cookie".to_string(), "b=2".to_string()), ("x".to_string(), "y".to_string())]
    );
}

#[test]
fn failed_send_is_a_transport_error() {
    match conclude(Exchange::SendFailed("dns".to_string())) {
        Err(e) => assert_eq!(e, RelayError::Transport("dns".to_string())),
        Ok(_) => panic!("a response was relayed"),
    }
}

#[test]
fn failed_body_read_is_its_own_error() {
    match conclude(Exchange::BodyFailed("reset".to_string())) {
        Err(e) => assert_eq!(e, RelayError::BodyRead("reset".to_string())),
        Ok(_) => panic!("a response was relayed"),
    }
}
