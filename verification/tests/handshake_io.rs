//! The serial handshake: device selection, request bytes, reply check.

use uefi_test_runner::handshake::{
    check_reply, reply_outcome, request_chunks, select_serial_device, HandshakeError,
    OBSERVATION_DELAY, SERIAL_TIMEOUT,
};

#[test]
fn second_of_two_serial_devices_is_selected() {
    let handles: Vec<u64> = vec![10, 20];
    assert_eq!(select_serial_device(&handles), Ok(20));
}

#[test]
fn second_of_many_serial_devices_is_selected() {
    let handles: Vec<u64> = vec![7, 8, 9, 11];
    assert_eq!(select_serial_device(&handles), Ok(8));
}

#[test]
fn one_serial_device_fails_fast_without_fallback() {
    // The single device carries the log stream; the handshake must fail
    // rather than take it over.
    let handles: Vec<u64> = vec![42];
    assert_eq!(
        select_serial_device(&handles),
        Err(HandshakeError::MissingSecondDevice)
    );
}

#[test]
fn no_serial_device_fails_fast() {
    let handles: Vec<u64> = vec![];
    assert_eq!(
        select_serial_device(&handles),
        Err(HandshakeError::MissingSecondDevice)
    );
}

#[test]
fn request_line_is_prefix_name_newline() {
    let name: Vec<u8> = b"basic".to_vec();
    let (prefix, middle, terminator) = request_chunks(&name);
    assert_eq!(prefix, b"SCREENSHOT: ".to_vec());
    assert_eq!(middle, b"basic".to_vec());
    assert_eq!(terminator, b"\n".to_vec());
    let mut line = prefix;
    line.extend(middle);
    line.extend(terminator);
    assert_eq!(line, b"SCREENSHOT: basic\n".to_vec());
}

#[test]
fn request_line_for_empty_name() {
    let name: Vec<u8> = Vec::new();
    let (prefix, middle, terminator) = request_chunks(&name);
    assert_eq!(prefix, b"SCREENSHOT: ".to_vec());
    assert!(middle.is_empty());
    assert_eq!(terminator, b"\n".to_vec());
}

#[test]
fn exact_reply_succeeds() {
    assert!(check_reply(b"OK\n"));
    assert_eq!(reply_outcome(b"OK\n"), Ok(()));
}

#[test]
fn reply_with_wrong_terminator_fails() {
    assert!(!check_reply(b"OK\0"));
    assert_eq!(reply_outcome(b"OK\0"), Err(HandshakeError::ReplyMismatch));
}

#[test]
fn reply_with_wrong_case_fails() {
    assert!(!check_reply(b"ok\n"));
    assert_eq!(reply_outcome(b"ok\n"), Err(HandshakeError::ReplyMismatch));
}

#[test]
fn negative_reply_fails() {
    assert!(!check_reply(b"NO\n"));
    assert_eq!(reply_outcome(b"NO\n"), Err(HandshakeError::ReplyMismatch));
}

#[test]
fn configured_delays_are_fixed() {
    assert_eq!(SERIAL_TIMEOUT, 10_000_000);
    assert_eq!(OBSERVATION_DELAY, 3_000_000);
}

#[test]
fn mock_serial_round_trip_succeeds_only_on_exact_reply() {
    // A mock serial device: it records the request chunks and echoes a
    // fixed three-byte reply.
    struct MockSerial {
        received: Vec<u8>,
        reply: [u8; 3],
    }
    impl MockSerial {
        fn write(&mut self, bytes: &[u8]) {
            self.received.extend_from_slice(bytes);
        }
        fn read3(&self) -> [u8; 3] {
            self.reply
        }
    }

    let run = |reply: [u8; 3]| -> Result<(), HandshakeError> {
        let handles: Vec<u64> = vec![1, 2];
        let _device = select_serial_device(&handles)?;
        let mut serial = MockSerial { received: Vec::new(), reply };
        let name: Vec<u8> = b"basic".to_vec();
        let (prefix, middle, terminator) = request_chunks(&name);
        serial.write(&prefix);
        serial.write(&middle);
        serial.write(&terminator);
        assert_eq!(serial.received, b"SCREENSHOT: basic\n".to_vec());
        let got = serial.read3();
        reply_outcome(&got)
    };

    assert_eq!(run(*b"OK\n"), Ok(()));
    assert_eq!(run(*b"NO\n"), Err(HandshakeError::ReplyMismatch));
    assert_eq!(run(*b"OK\0"), Err(HandshakeError::ReplyMismatch));
    assert_eq!(run(*b"ok\n"), Err(HandshakeError::ReplyMismatch));
}
