use flexidesk::digit::{height_report, Height};
use flexidesk::serial::{Error, FlexiConnection, ReadEvent};
use std::mem::discriminant;

const HEIGHT_FRAME: [u8; 9] = [0x9B, 0x07, 0x12, 0x07, 0xDB, 0x6D, 0x41, 0x02, 0x9D];

fn feed_all(conn: &mut FlexiConnection<()>, events: Vec<ReadEvent>) -> Vec<Result<Vec<u8>, Error>> {
    let mut out = Vec::new();
    for event in events {
        if let Some(r) = conn.handle_read(event) {
            out.push(r);
        }
    }
    out
}

#[test]
fn test_up() {
    let bin: Vec<u8> = vec![0x9b, 0x06, 0x02, 0x00, 0x00, 0x6c, 0xa1, 0x9d];
    let mut conn: FlexiConnection<&[u8]> = FlexiConnection::new(bin.as_ref());
    let body = conn.read_packet().unwrap();
    assert_eq!(vec![0x02, 0x00, 0x00], body)
}

#[test]
fn test_info() {
    let bin: Vec<u8> = vec![0x9B, 0x07, 0x12, 0x07, 0xCF, 0x66, 0xA3, 0xF0, 0x9D];
    let mut conn: FlexiConnection<&[u8]> = FlexiConnection::new(bin.as_ref());
    let body = conn.read_packet().unwrap();
    assert_eq!(vec![0x12, 0x07, 0xCF, 0x66], body)
}

#[test]
fn test_multiple() {
    let bin: Vec<u8> = vec![0x9B, 0x07, 0x12, 0x07, 0xCF, 0x66, 0xA3, 0xF0, 0x9D,
                            0x9B, 0x07, 0x13, 0x07, 0xCF, 0x66, 0xA3, 0xF0, 0x9D];
    let mut conn: FlexiConnection<&[u8]> = FlexiConnection::new(bin.as_ref());
    let body = conn.read_packet().unwrap();
    assert_eq!(vec![0x12, 0x07, 0xCF, 0x66], body);
    let body = conn.read_packet().unwrap();
    assert_eq!(vec![0x13, 0x07, 0xCF, 0x66], body);
}

#[test]
fn test_off_after_error() {
    let bin: Vec<u8> = vec![0x9B, 0x07, 0x12, 0x07, 0xCF, 0x66, 0xA3, 0xF0, 0x00, 0x00];
    let mut conn: FlexiConnection<&[u8]> = FlexiConnection::new(bin.as_ref());
    let result = conn.read_packet().unwrap_err();
    assert_eq!(discriminant(&result), discriminant(&Error::MalformedPacketError(String::default())));
    let result = conn.read_packet().unwrap_err();
    assert_eq!(discriminant(&result), discriminant(&Error::DeviceTurnedOffError));
}

#[test]
fn frame_consumes_length_plus_two_bytes() {
    let bin: Vec<u8> = vec![0x9B, 0x07, 0x12, 0x07, 0xCF, 0x66, 0xA3, 0xF0, 0x9D, 0x00, 0x00];
    let mut conn: FlexiConnection<&[u8]> = FlexiConnection::new(bin.as_ref());
    conn.read_packet().unwrap();
    assert_eq!(conn.reader_mut().len(), bin.len() - (0x07 + 2));
}

#[test]
fn short_declared_length_gives_one_byte_payload() {
    let bin: Vec<u8> = vec![0x9B, 0x00, 0x55, 0x01, 0x02, 0x9D];
    let mut conn: FlexiConnection<&[u8]> = FlexiConnection::new(bin.as_ref());
    assert_eq!(conn.read_packet().unwrap(), vec![0x55]);
}

#[test]
fn longest_payload() {
    let mut bin: Vec<u8> = vec![0x9B, 0xFF];
    for i in 0..252u32 {
        bin.push(i as u8);
    }
    bin.extend_from_slice(&[0x00, 0x00, 0x9D]);
    let mut conn: FlexiConnection<&[u8]> = FlexiConnection::new(bin.as_ref());
    let body = conn.read_packet().unwrap();
    assert_eq!(body.len(), 252);
    assert_eq!(body[251], 251);
}

#[test]
fn zero_inside_frame_is_data() {
    let bin: Vec<u8> = vec![0x9B, 0x06, 0x00, 0x00, 0x00, 0x00, 0x00, 0x9D];
    let mut conn: FlexiConnection<&[u8]> = FlexiConnection::new(bin.as_ref());
    assert_eq!(conn.read_packet().unwrap(), vec![0x00, 0x00, 0x00]);
}

#[test]
fn bad_end_byte_is_malformed() {
    let bin: Vec<u8> = vec![0x9B, 0x06, 0x02, 0x00, 0x00, 0x6C, 0xA1, 0x9C];
    let mut conn: FlexiConnection<&[u8]> = FlexiConnection::new(bin.as_ref());
    match conn.read_packet() {
        Err(Error::MalformedPacketError(text)) => assert_eq!(text, "unexpected packet byte 9C"),
        other => panic!("unexpected result {:?}", other),
    }
}

#[test]
fn single_height_report_published_once() {
    let mut conn: FlexiConnection<&[u8]> = FlexiConnection::new(HEIGHT_FRAME.as_ref());
    let packet = conn.read_packet().unwrap();
    assert_eq!(packet, vec![0x12, 0x07, 0xDB, 0x6D]);
    let report = height_report(&packet).unwrap().unwrap();
    assert_eq!(report, Height { tenths: 725 });
    assert_eq!(report.tenths as f64 / 10.0, 72.5);
    assert!(conn.reader_mut().is_empty());
}

#[test]
fn powered_off_desk_reports_device_off() {
    let bin: Vec<u8> = vec![0x00; 5];
    let mut conn: FlexiConnection<&[u8]> = FlexiConnection::new(bin.as_ref());
    for _ in 0..5 {
        assert!(matches!(conn.read_packet(), Err(Error::DeviceTurnedOffError)));
    }
}

#[test]
fn noise_before_valid_frame() {
    let bin: Vec<u8> = vec![0xAA, 0x9B, 0x06, 0x02, 0x00, 0x00, 0x6C, 0xA1, 0x9D];
    let mut conn: FlexiConnection<&[u8]> = FlexiConnection::new(bin.as_ref());
    match conn.read_packet() {
        Err(Error::MalformedPacketError(text)) => {
            assert_eq!(text, "failed to get first byte. got AA")
        }
        other => panic!("unexpected result {:?}", other),
    }
    assert_eq!(conn.read_packet().unwrap(), vec![0x02, 0x00, 0x00]);
}

#[test]
fn partial_reads_give_same_packet() {
    let mut conn = FlexiConnection::new(());
    let mut events = Vec::new();
    for b in HEIGHT_FRAME.iter() {
        events.push(ReadEvent::Filled(0, 0));
        events.push(ReadEvent::TimedOut);
        events.push(ReadEvent::Filled(1, *b));
    }
    let out = feed_all(&mut conn, events);
    assert_eq!(out.len(), 1);
    assert_eq!(out[0].as_ref().unwrap(), &vec![0x12, 0x07, 0xDB, 0x6D]);

    let mut block: FlexiConnection<&[u8]> = FlexiConnection::new(HEIGHT_FRAME.as_ref());
    assert_eq!(&block.read_packet().unwrap(), out[0].as_ref().unwrap());
}

#[test]
fn overfilled_read_is_unknown_error() {
    let mut conn = FlexiConnection::new(());
    match conn.handle_read(ReadEvent::Filled(2, 0x9B)) {
        Some(Err(Error::UnknownError(text))) => assert_eq!(text, "invalid read length: 2"),
        other => panic!("unexpected result {:?}", other),
    }
    match conn.handle_read(ReadEvent::Filled(17, 0x9B)) {
        Some(Err(Error::UnknownError(text))) => assert_eq!(text, "invalid read length: 17"),
        other => panic!("unexpected result {:?}", other),
    }
}

#[test]
fn io_failure_is_passed_on() {
    let mut conn = FlexiConnection::new(());
    let failure = std::io::Error::new(std::io::ErrorKind::BrokenPipe, "gone");
    match conn.handle_read(ReadEvent::Failed(failure)) {
        Some(Err(Error::IoError(e))) => assert_eq!(e.kind(), std::io::ErrorKind::BrokenPipe),
        other => panic!("unexpected result {:?}", other),
    }
    assert!(matches!(conn.handle_read(ReadEvent::Filled(1, 0x00)), Some(Err(Error::DeviceTurnedOffError))));
}

#[test]
fn frame_survives_io_failure() {
    let mut conn = FlexiConnection::new(());
    for b in HEIGHT_FRAME[..3].iter() {
        assert!(conn.handle_read(ReadEvent::Filled(1, *b)).is_none());
    }
    let failure = std::io::Error::new(std::io::ErrorKind::Interrupted, "hiccup");
    assert!(matches!(conn.handle_read(ReadEvent::Failed(failure)), Some(Err(Error::IoError(_)))));
    for b in HEIGHT_FRAME[3..8].iter() {
        assert!(conn.handle_read(ReadEvent::Filled(1, *b)).is_none());
    }
    let body = conn.handle_read(ReadEvent::Filled(1, 0x9D)).unwrap().unwrap();
    assert_eq!(body, vec![0x12, 0x07, 0xDB, 0x6D]);
}

#[test]
fn frame_survives_overfilled_read() {
    let mut conn = FlexiConnection::new(());
    for b in HEIGHT_FRAME[..4].iter() {
        assert!(conn.handle_read(ReadEvent::Filled(1, *b)).is_none());
    }
    assert!(matches!(conn.handle_read(ReadEvent::Filled(3, 0xDB)), Some(Err(Error::UnknownError(_)))));
    for b in HEIGHT_FRAME[4..8].iter() {
        assert!(conn.handle_read(ReadEvent::Filled(1, *b)).is_none());
    }
    let body = conn.handle_read(ReadEvent::Filled(1, 0x9D)).unwrap().unwrap();
    assert_eq!(body, vec![0x12, 0x07, 0xDB, 0x6D]);
}

#[test]
fn frame_split_over_pushes() {
    let mut conn = FlexiConnection::new(());
    for b in HEIGHT_FRAME[..8].iter() {
        assert!(conn.push_byte(*b).is_none());
    }
    assert_eq!(conn.push_byte(0x9D).unwrap().unwrap(), vec![0x12, 0x07, 0xDB, 0x6D]);
}
