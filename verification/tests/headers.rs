use ksyup::middlewares::is_valid_header_value;
use ksyup::middlewares::request_id::{RequestId, RequestIdMiddleware};
use ksyup::middlewares::timer::{Timer, TimerMiddleware};

fn is_uuid_v4(s: &str) -> bool {
    let c: Vec<char> = s.chars().collect();
    if c.len() != 36 {
        return false;
    }
    for (i, ch) in c.iter().enumerate() {
        if [8, 13, 18, 23].contains(&i) {
            if *ch != '-' {
                return false;
            }
        } else if !(ch.is_ascii_digit() || ('a'..='f').contains(ch)) {
            return false;
        }
    }
    c[14] == '4' && ['8', '9', 'a', 'b'].contains(&c[19])
}

#[test]
fn header_value_characters() {
    assert!(is_valid_header_value("abc 123"));
    assert!(is_valid_header_value("a\tb"));
    assert!(is_valid_header_value("é"));
    assert!(is_valid_header_value(""));
    assert!(!is_valid_header_value("a\nb"));
    assert!(!is_valid_header_value("\u{7f}"));
    assert!(!is_valid_header_value("\u{1}"));
}

#[test]
fn request_id_header_is_always_added() {
    let m = RequestId.new_transform();
    for _ in 0..50 {
        let h = m.call().expect("request id header");
        assert_eq!(h.name, "x-request-id");
        assert!(is_uuid_v4(&h.value), "{}", h.value);
    }
}

#[test]
fn request_ids_differ() {
    let m = RequestIdMiddleware;
    assert_ne!(m.new_request_id(), m.new_request_id());
}

#[test]
fn request_id_header_checks_value() {
    let m = RequestIdMiddleware;
    let h = m.request_id_header(String::from("abc")).unwrap();
    assert_eq!(h.name, "x-request-id");
    assert_eq!(h.value, "abc");
    assert_eq!(m.request_id_header(String::from("a\rb")), None);
}

#[test]
fn process_time_header() {
    let m: TimerMiddleware = Timer.new_transform();
    let h = m.process_time_header(Some("0.000125")).unwrap();
    assert_eq!(h.name, "x-process-time-s");
    assert_eq!(h.value, "0.000125");
    assert_eq!(m.process_time_header(None), None);
    assert_eq!(m.process_time_header(Some("1\n")), None);
}

#[test]
fn request_id_from_bytes_is_hyphenated_hex() {
    let m = RequestIdMiddleware;
    let bytes: [u8; 16] = [
        0x12, 0x34, 0x56, 0x78, 0x9a, 0xbc, 0x4d, 0xef, 0x80, 0x01, 0x02, 0x03, 0x04, 0x05, 0xfe,
        0xff,
    ];
    assert_eq!(m.request_id_from_bytes(bytes), "12345678-9abc-4def-8001-02030405feff");
    assert_eq!(m.request_id_from_bytes([0u8; 16]), "00000000-0000-0000-0000-000000000000");
}

#[test]
fn request_ids_equal_iff_bytes_equal() {
    let m = RequestIdMiddleware;
    let a = [7u8; 16];
    let mut b = a;
    assert_eq!(m.request_id_from_bytes(a), m.request_id_from_bytes(b));
    b[15] = 8;
    assert_ne!(m.request_id_from_bytes(a), m.request_id_from_bytes(b));
}
