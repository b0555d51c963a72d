use cffi_explore::{
    c_string_bytes, decode_destination, status_succeeded, DeliveryLog, MyError, OnSend, Release,
    RustSideHandler, UserSpaceWrapper,
};
use std::sync::{Arc, Mutex};

type Received = Arc<Mutex<Vec<(String, Vec<u8>)>>>;

struct Recorder {
    received: Received,
}

impl OnSend for Recorder {
    fn on_send(&mut self, src: &str, arg: &[u8]) {
        self.received
            .lock()
            .unwrap()
            .push((src.to_string(), arg.to_vec()));
    }
}

fn recorder() -> (RustSideHandler, Received) {
    let received: Received = Arc::new(Mutex::new(Vec::new()));
    let handler = RustSideHandler {
        opaque: Box::new(Recorder {
            received: Arc::clone(&received),
        }),
    };
    (handler, received)
}

#[test]
fn status_zero_and_positive_succeed() {
    assert!(status_succeeded(0));
    assert!(status_succeeded(1));
    assert!(status_succeeded(i32::MAX));
}

#[test]
fn status_negative_fails() {
    assert!(!status_succeeded(-1));
    assert!(!status_succeeded(i32::MIN));
}

#[test]
fn c_string_of_destination_is_nul_terminated() {
    assert_eq!(c_string_bytes("here"), Some(vec![104, 101, 114, 101, 0]));
    assert_eq!(c_string_bytes("here12"), Some(b"here12\0".to_vec()));
}

#[test]
fn c_string_of_empty_destination() {
    assert_eq!(c_string_bytes(""), Some(vec![0]));
}

#[test]
fn c_string_keeps_utf8_bytes() {
    assert_eq!(c_string_bytes("é"), Some(vec![0xc3, 0xa9, 0]));
}

#[test]
fn c_string_refuses_interior_nul() {
    assert_eq!(c_string_bytes("he\0re"), None);
    assert_eq!(c_string_bytes("\0"), None);
    assert_eq!(c_string_bytes("here\0"), None);
}

#[test]
fn c_string_reads_back_up_to_nul() {
    let bytes = c_string_bytes("ledata").unwrap();
    let end = bytes.iter().position(|b| *b == 0).unwrap();
    assert_eq!(end, bytes.len() - 1);
    assert_eq!(&bytes[..end], "ledata".as_bytes());
}

#[test]
fn decode_destination_accepts_utf8() {
    assert_eq!(decode_destination(b"here12"), Some("here12"));
    assert_eq!(decode_destination(&[0xc3, 0xa9]), Some("é"));
    assert_eq!(decode_destination(b""), Some(""));
}

#[test]
fn decode_destination_refuses_invalid_utf8() {
    assert_eq!(decode_destination(&[0xff]), None);
    assert_eq!(decode_destination(&[b'a', 0xc3]), None);
    assert_eq!(decode_destination(&[0xed, 0xa0, 0x80]), None);
}

#[test]
fn delivery_reaches_handler() {
    let (mut handler, received) = recorder();
    assert!(handler.deliver(b"here12", "ledata to send".as_bytes()));
    let got = received.lock().unwrap().clone();
    assert_eq!(
        got,
        vec![("here12".to_string(), b"ledata to send".to_vec())]
    );
}

#[test]
fn delivery_with_invalid_destination_is_refused() {
    let (mut handler, received) = recorder();
    assert!(!handler.deliver(&[0xff, 0xfe], b"data"));
    assert!(received.lock().unwrap().is_empty());
}

#[test]
fn deliveries_arrive_in_order() {
    let (mut handler, received) = recorder();
    assert!(handler.deliver(b"here", b"another one"));
    assert!(handler.deliver(b"here12", b"for other handle"));
    let got = received.lock().unwrap().clone();
    assert_eq!(got[0], ("here".to_string(), b"another one".to_vec()));
    assert_eq!(got[1], ("here12".to_string(), b"for other handle".to_vec()));
}

#[test]
fn new_registration_is_live() {
    let w = UserSpaceWrapper::new(0x1000, 0x2000);
    assert!(w.is_registered());
}

#[test]
fn null_context_is_not_live() {
    let w = UserSpaceWrapper::new(0x1000, 0);
    assert!(!w.is_registered());
}

#[test]
fn delete_releases_registration() {
    let mut w = UserSpaceWrapper::new(0x1000, 0x2000);
    assert_eq!(
        w.delete(),
        Some(Release {
            ctx: 0x2000,
            ffi_wrapper: 0x1000
        })
    );
    assert!(!w.is_registered());
}

#[test]
fn delete_twice_releases_once() {
    let mut w = UserSpaceWrapper::new(0x1000, 0x2000);
    assert!(w.delete().is_some());
    assert_eq!(w.delete(), None);
    assert_eq!(w.delete(), None);
    assert!(!w.is_registered());
}

#[test]
fn delete_of_failed_registration_releases_nothing() {
    let mut w = UserSpaceWrapper::new(0x1000, 0);
    assert_eq!(w.delete(), None);
    assert!(!w.is_registered());
}

#[test]
fn many_deletes_release_at_most_once() {
    let mut w = UserSpaceWrapper::new(8, 24);
    let released = (0..5).filter(|_| w.delete().is_some()).count();
    assert_eq!(released, 1);
}

#[test]
fn error_message_names_destination() {
    let err = MyError::FailedToRegister {
        dest: "here".to_string(),
    };
    assert_eq!(err.message(), "Failed to register destination 'here'");
}

#[test]
fn error_message_with_empty_destination() {
    let err = MyError::FailedToRegister {
        dest: String::new(),
    };
    assert_eq!(err.message(), "Failed to register destination ''");
}

#[test]
fn delivery_log_starts_empty() {
    let log = DeliveryLog::new();
    assert!(log.deliveries.is_empty());
}

#[test]
fn delivery_log_keeps_deliveries_in_order() {
    let mut log = DeliveryLog::new();
    log.on_send("here", b"ledata to send");
    log.on_send("here12", b"");
    assert_eq!(
        log.deliveries,
        vec![
            ("here".to_string(), b"ledata to send".to_vec()),
            ("here12".to_string(), Vec::new()),
        ]
    );
}
