use ut61eplus_lib::error::Error;
use ut61eplus_lib::protocol::extract_frame;

/// Build a valid frame from a payload.
fn make_frame(payload: &[u8]) -> Vec<u8> {
    let mut frame = vec![0xAB, 0xCD, payload.len() as u8];
    frame.extend_from_slice(payload);
    let sum: u16 = frame.iter().map(|&b| b as u16).sum();
    frame.push((sum >> 8) as u8);
    frame.push((sum & 0xFF) as u8);
    frame
}

#[test]
fn protocol_extract_valid_frame() {
    let payload = vec![0x01, 0x02, 0x03];
    let frame = make_frame(&payload);
    let result = extract_frame(&frame).unwrap().unwrap();
    assert_eq!(result.0, payload);
    assert_eq!(result.1, frame.len());
}

#[test]
fn protocol_extract_with_leading_garbage() {
    let payload = vec![0x01, 0x02, 0x03];
    let frame = make_frame(&payload);
    let mut buf = vec![0xFF, 0xFE, 0xFD];
    buf.extend_from_slice(&frame);
    let result = extract_frame(&buf).unwrap().unwrap();
    assert_eq!(result.0, payload);
    assert_eq!(result.1, 3 + frame.len()); // garbage + frame
}

#[test]
fn protocol_extract_incomplete() {
    let frame = vec![0xAB, 0xCD, 0x03, 0x01]; // incomplete
    assert!(extract_frame(&frame).unwrap().is_none());
}

#[test]
fn protocol_extract_bad_checksum() {
    let mut frame = make_frame(&[0x01, 0x02, 0x03]);
    let last = frame.len() - 1;
    frame[last] ^= 0xFF; // corrupt checksum
    assert!(extract_frame(&frame).is_err());
}

#[test]
fn protocol_extract_no_header() {
    let buf = vec![0x00, 0x01, 0x02, 0x03];
    assert!(extract_frame(&buf).unwrap().is_none());
}

#[test]
fn protocol_mismatch_reports_both_checksums() {
    // sum of AB CD 03 01 02 03 = 0x0181
    let frame = vec![0xAB, 0xCD, 0x03, 0x01, 0x02, 0x03, 0x01, 0x84];
    match extract_frame(&frame) {
        Err(Error::ChecksumMismatch { expected, actual }) => {
            assert_eq!(expected, 0x0184);
            assert_eq!(actual, 0x0181);
        }
        other => panic!("unexpected result {:?}", other),
    }
}

#[test]
fn protocol_trailing_bytes_stay_in_buffer() {
    let frame = make_frame(&[0x10, 0x20]);
    let mut buf = frame.clone();
    buf.extend_from_slice(&[0xAB, 0xCD, 0x05]);
    let (payload, consumed) = extract_frame(&buf).unwrap().unwrap();
    assert_eq!(payload, vec![0x10, 0x20]);
    assert_eq!(consumed, frame.len());
}

#[test]
fn protocol_empty_payload_frame_waits_for_more() {
    // A five-byte frame is under the six bytes the extractor waits for.
    let frame = make_frame(&[]);
    assert_eq!(frame.len(), 5);
    assert!(extract_frame(&frame).unwrap().is_none());
}

#[test]
fn protocol_first_header_wins() {
    let first = make_frame(&[0x01]);
    let second = make_frame(&[0x02]);
    let mut buf = vec![0xCD, 0xAB];
    buf.extend_from_slice(&first);
    buf.extend_from_slice(&second);
    let (payload, consumed) = extract_frame(&buf).unwrap().unwrap();
    assert_eq!(payload, vec![0x01]);
    assert_eq!(consumed, 2 + first.len());
}
