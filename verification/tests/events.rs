use split_tunnel::event::{
    parse_event_buffer, read_event, serialize_event, EventBody, EventId, SplittingChangeReason,
};

const W: usize = std::mem::size_of::<usize>();

fn word(value: usize) -> Vec<u8> {
    value.to_le_bytes().to_vec()
}

fn utf16(text: &str) -> Vec<u16> {
    text.encode_utf16().collect()
}

fn packed(text: &str) -> Vec<u8> {
    utf16(text).iter().flat_map(|unit| unit.to_le_bytes()).collect()
}

fn header(id: u32, size: usize) -> Vec<u8> {
    let mut buffer = word(id as usize);
    buffer.extend(word(size));
    buffer
}

fn splitting_event(id: u32, pid: usize, reason: u32, image: &str) -> Vec<u8> {
    let text = packed(image);
    let mut buffer = header(id, W + 6 + text.len());
    buffer.extend(word(pid));
    buffer.extend(reason.to_le_bytes());
    buffer.extend((text.len() as u16).to_le_bytes());
    buffer.extend(text);
    buffer
}

fn splitting_error(id: u32, pid: usize, image: &str) -> Vec<u8> {
    let text = packed(image);
    let mut buffer = header(id, W + 2 + text.len());
    buffer.extend(word(pid));
    buffer.extend((text.len() as u16).to_le_bytes());
    buffer.extend(text);
    buffer
}

fn error_message(status: i32, message: &str) -> Vec<u8> {
    let text = packed(message);
    let mut buffer = header(0x8000_0003, 6 + text.len());
    buffer.extend(status.to_le_bytes());
    buffer.extend((text.len() as u16).to_le_bytes());
    buffer.extend(text);
    buffer
}

#[test]
fn parses_a_start_splitting_event() {
    let buffer = splitting_event(0, 4242, 6, "\\Device\\HarddiskVolume1\\app.exe");
    assert_eq!(
        parse_event_buffer(&buffer),
        Some((
            EventId::StartSplittingProcess,
            EventBody::SplittingEvent {
                process_id: 4242,
                reason: SplittingChangeReason { bits: 6 },
                image: utf16("\\Device\\HarddiskVolume1\\app.exe"),
            }
        ))
    );
}

#[test]
fn parses_a_stop_splitting_event() {
    let buffer = splitting_event(1, usize::MAX, 9, "x");
    assert_eq!(
        parse_event_buffer(&buffer),
        Some((
            EventId::StopSplittingProcess,
            EventBody::SplittingEvent {
                process_id: usize::MAX,
                reason: SplittingChangeReason { bits: 9 },
                image: utf16("x"),
            }
        ))
    );
}

#[test]
fn parses_splitting_errors() {
    assert_eq!(
        parse_event_buffer(&splitting_error(0x8000_0001, 77, "a.exe")),
        Some((
            EventId::ErrorStartSplittingProcess,
            EventBody::SplittingError {
                process_id: 77,
                image: utf16("a.exe"),
            }
        ))
    );
    assert_eq!(
        parse_event_buffer(&splitting_error(0x8000_0002, 78, "")),
        Some((
            EventId::ErrorStopSplittingProcess,
            EventBody::SplittingError {
                process_id: 78,
                image: Vec::new(),
            }
        ))
    );
}

#[test]
fn parses_an_error_message_with_a_negative_status() {
    let buffer = error_message(-1073741823, "out of memory");
    assert_eq!(
        parse_event_buffer(&buffer),
        Some((
            EventId::ErrorMessage,
            EventBody::ErrorMessage {
                status: -1073741823,
                message: utf16("out of memory"),
            }
        ))
    );
}

#[test]
fn unknown_reason_bits_are_dropped() {
    let buffer = splitting_event(0, 1, 0xFFFF_FFF5, "a");
    assert_eq!(
        parse_event_buffer(&buffer),
        Some((
            EventId::StartSplittingProcess,
            EventBody::SplittingEvent {
                process_id: 1,
                reason: SplittingChangeReason { bits: 5 },
                image: utf16("a"),
            }
        ))
    );
}

#[test]
fn dropped_reason_bits_are_told() {
    assert_eq!(read_event(&splitting_event(0, 1, 0xFFFF_FFF5, "a")).1, 0xFFFF_FFF0);
    assert_eq!(read_event(&splitting_event(1, 1, 0x15, "a")).1, 0x10);
    assert_eq!(read_event(&splitting_event(0, 1, 15, "a")).1, 0);
    assert_eq!(read_event(&splitting_error(0x8000_0001, 1, "a")).1, 0);
    assert_eq!(read_event(&error_message(-1, "a")).1, 0);
    assert_eq!(read_event(&[]), (None, 0));
    let event = splitting_event(0, 1, 0x25, "a");
    assert_eq!(read_event(&event).0, parse_event_buffer(&event));
    assert_eq!(read_event(&event[..event.len() - 1]), (None, 0));
}

#[test]
fn unknown_event_id_is_no_event() {
    assert_eq!(parse_event_buffer(&splitting_event(2, 1, 1, "a")), None);
    assert_eq!(
        parse_event_buffer(&splitting_event(0x8000_0004, 1, 1, "a")),
        None
    );
}

#[test]
fn buffer_without_an_id_is_no_event() {
    assert_eq!(parse_event_buffer(&[]), None);
    assert_eq!(parse_event_buffer(&[0, 0, 0]), None);
}

#[test]
fn buffer_with_a_short_header_is_no_event() {
    let buffer = splitting_event(0, 1, 1, "a");
    assert_eq!(parse_event_buffer(&buffer[..4]), None);
    assert_eq!(parse_event_buffer(&buffer[..2 * W - 1]), None);
    assert_eq!(parse_event_buffer(&buffer[..2 * W]), None);
    assert_eq!(parse_event_buffer(&buffer[..2 * W + W + 5]), None);
}

#[test]
fn payload_shorter_than_declared_is_no_event() {
    let buffer = splitting_event(0, 1, 1, "abc");
    assert_eq!(parse_event_buffer(&buffer[..buffer.len() - 1]), None);
    let buffer = splitting_error(0x8000_0001, 1, "abc");
    assert_eq!(parse_event_buffer(&buffer[..buffer.len() - 1]), None);
    let buffer = error_message(5, "abc");
    assert_eq!(parse_event_buffer(&buffer[..buffer.len() - 1]), None);
    assert_eq!(parse_event_buffer(&buffer[..2 * W + 5]), None);
}

#[test]
fn bytes_behind_the_payload_are_ignored() {
    let mut buffer = error_message(7, "abc");
    let expected = parse_event_buffer(&buffer);
    buffer.extend([0xDE, 0xAD, 0xBE, 0xEF]);
    assert!(expected.is_some());
    assert_eq!(parse_event_buffer(&buffer), expected);
}

#[test]
fn padding_behind_the_id_is_ignored() {
    let mut buffer = splitting_error(0x8000_0001, 3, "b");
    for byte in buffer.iter_mut().take(W).skip(4) {
        *byte = 0xFF;
    }
    assert_eq!(
        parse_event_buffer(&buffer),
        Some((
            EventId::ErrorStartSplittingProcess,
            EventBody::SplittingError {
                process_id: 3,
                image: utf16("b"),
            }
        ))
    );
}

#[test]
fn odd_length_keeps_the_last_byte() {
    let mut buffer = header(0x8000_0003, 9);
    buffer.extend(0i32.to_le_bytes());
    buffer.extend(3u16.to_le_bytes());
    buffer.extend([0x41, 0x00, 0x42]);
    assert_eq!(
        parse_event_buffer(&buffer),
        Some((
            EventId::ErrorMessage,
            EventBody::ErrorMessage {
                status: 0,
                message: vec![0x41, 0x42],
            }
        ))
    );
}

#[test]
fn serialized_events_have_the_driver_layout() {
    let body = EventBody::SplittingEvent {
        process_id: 4242,
        reason: SplittingChangeReason { bits: 6 },
        image: utf16("app.exe"),
    };
    assert_eq!(
        serialize_event(EventId::StartSplittingProcess, &body),
        splitting_event(0, 4242, 6, "app.exe")
    );
    let body = EventBody::SplittingError {
        process_id: 9,
        image: utf16("b.exe"),
    };
    assert_eq!(
        serialize_event(EventId::ErrorStopSplittingProcess, &body),
        splitting_error(0x8000_0002, 9, "b.exe")
    );
    let body = EventBody::ErrorMessage {
        status: -5,
        message: utf16("bad"),
    };
    assert_eq!(
        serialize_event(EventId::ErrorMessage, &body),
        error_message(-5, "bad")
    );
}

#[test]
fn events_survive_encoding_and_decoding() {
    let events = vec![
        (
            EventId::StartSplittingProcess,
            EventBody::SplittingEvent {
                process_id: 0,
                reason: SplittingChangeReason { bits: 15 },
                image: utf16("\\Device\\HarddiskVolume7\\Program Files\\x.exe"),
            },
        ),
        (
            EventId::StopSplittingProcess,
            EventBody::SplittingEvent {
                process_id: usize::MAX,
                reason: SplittingChangeReason { bits: 0 },
                image: Vec::new(),
            },
        ),
        (
            EventId::ErrorStartSplittingProcess,
            EventBody::SplittingError {
                process_id: 12,
                image: vec![0xD83D, 0xDE00],
            },
        ),
        (
            EventId::ErrorStopSplittingProcess,
            EventBody::SplittingError {
                process_id: 13,
                image: vec![0xFFFF; 32767],
            },
        ),
        (
            EventId::ErrorMessage,
            EventBody::ErrorMessage {
                status: i32::MIN,
                message: utf16("driver failure"),
            },
        ),
        (
            EventId::ErrorMessage,
            EventBody::ErrorMessage {
                status: i32::MAX,
                message: Vec::new(),
            },
        ),
    ];
    for (id, body) in events {
        let buffer = serialize_event(id, &body);
        assert_eq!(parse_event_buffer(&buffer), Some((id, body)));
    }
}
