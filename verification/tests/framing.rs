use ut61eplus_lib::error::Error;
use ut61eplus_lib::protocol::framing::{
    extract_frame_abcd_1byte_le16, extract_frame_abcd_2byte_le16, extract_frame_abcd_be16,
    extract_frame_ut8803,
};

/// Build a valid UT61E+ frame from a payload.
fn make_frame_be16(payload: &[u8]) -> Vec<u8> {
    let len_byte = (payload.len() + 2) as u8;
    let mut frame = vec![0xAB, 0xCD, len_byte];
    frame.extend_from_slice(payload);
    let sum: u16 = frame.iter().map(|&b| b as u16).sum();
    frame.push((sum >> 8) as u8);
    frame.push((sum & 0xFF) as u8);
    frame
}

#[test]
fn framing_extract_valid_frame() {
    let payload = vec![0x01, 0x02, 0x03];
    let frame = make_frame_be16(&payload);
    let result = extract_frame_abcd_be16(&frame).unwrap().unwrap();
    assert_eq!(result.0, payload);
    assert_eq!(result.1, frame.len());
}

#[test]
fn framing_extract_with_leading_garbage() {
    let payload = vec![0x01, 0x02, 0x03];
    let frame = make_frame_be16(&payload);
    let mut buf = vec![0xFF, 0xFE, 0xFD];
    buf.extend_from_slice(&frame);
    let result = extract_frame_abcd_be16(&buf).unwrap().unwrap();
    assert_eq!(result.0, payload);
    assert_eq!(result.1, 3 + frame.len());
}

#[test]
fn framing_extract_incomplete() {
    let frame = vec![0xAB, 0xCD, 0x03, 0x01]; // incomplete
    assert!(extract_frame_abcd_be16(&frame).unwrap().is_none());
}

#[test]
fn framing_extract_bad_checksum() {
    let mut frame = make_frame_be16(&[0x01, 0x02, 0x03]);
    let last = frame.len() - 1;
    frame[last] ^= 0xFF;
    assert!(extract_frame_abcd_be16(&frame).is_err());
}

#[test]
fn framing_extract_no_header() {
    let buf = vec![0x00, 0x01, 0x02, 0x03];
    assert!(extract_frame_abcd_be16(&buf).unwrap().is_none());
}

#[test]
fn extract_real_device_frame() {
    // Real frame captured from UT61E+ on DC mV mode, reading " 0.0004"
    let frame = vec![
        0xAB, 0xCD, 0x10, 0x02, 0x30, 0x20, 0x30, 0x2E, 0x30, 0x30, 0x30, 0x34, 0x00, 0x02,
        0x30, 0x30, 0x30, 0x03, 0x8E,
    ];
    let (payload, consumed) = extract_frame_abcd_be16(&frame).unwrap().unwrap();
    assert_eq!(consumed, 19);
    assert_eq!(payload.len(), 14);
    assert_eq!(payload[0], 0x02);
    assert_eq!(payload[1] & 0x0F, 0x00);
    assert_eq!(&payload[2..9], b" 0.0004");
}

#[test]
fn ut8803_valid_frame() {
    // Construct a minimal valid 21-byte UT8803 frame
    let mut frame = vec![
        0xAB, 0xCD, // header
        0x00, // byte 2
        0x02, // type = measurement
        0x01, // mode
        0x31, // range (with 0x30 prefix)
        0x00, // padding
        b'1', b'2', b'.', b'3', b'4', // display (5 bytes)
        0x00, 0x00, // flags0
        0x00, 0x00, // flags1
        0x00, 0x00, // flags2
        0x00, // flags3
    ];
    // Compute checksum: sum of bytes 0..19
    let sum: u16 = frame.iter().map(|&b| b as u16).sum();
    frame.push((sum >> 8) as u8);
    frame.push((sum & 0xFF) as u8);
    assert_eq!(frame.len(), 21);

    let (payload, consumed) = extract_frame_ut8803(&frame).unwrap().unwrap();
    assert_eq!(consumed, 21);
    assert_eq!(payload.len(), 17); // bytes 2..19
}

#[test]
fn ut8803_incomplete() {
    let buf = vec![0xAB, 0xCD, 0x00, 0x02, 0x01]; // too short
    assert!(extract_frame_ut8803(&buf).unwrap().is_none());
}

#[test]
fn le16_frame_ut181a() {
    // Build a valid UT181A frame (2-byte LE length = payload + 2)
    let payload = vec![0x02, 0x00, 0x11, 0x31]; // type + some data
    let len_val = (payload.len() + 2) as u16; // payload + checksum
    let mut frame = vec![0xAB, 0xCD];
    frame.push((len_val & 0xFF) as u8);
    frame.push((len_val >> 8) as u8);
    frame.extend_from_slice(&payload);
    // Checksum over bytes[2..frame.len()] = length + payload
    let sum: u16 = frame[2..].iter().map(|&b| b as u16).sum();
    frame.push((sum & 0xFF) as u8);
    frame.push((sum >> 8) as u8);

    let (p, consumed) = extract_frame_abcd_2byte_le16(&frame).unwrap().unwrap();
    assert_eq!(p, payload);
    assert_eq!(consumed, frame.len());
}

#[test]
fn le16_frame_ut171() {
    // Build a valid UT171 frame (1-byte length = payload size, LE checksum)
    let payload = vec![0x00, 0x02, 0x80, 0x01, 0x0A, 0x01];
    let len_byte = payload.len() as u8;
    let mut frame = vec![0xAB, 0xCD, len_byte];
    frame.extend_from_slice(&payload);
    // Checksum: LE sum of bytes[2..] (length byte + payload)
    let sum: u16 = frame[2..].iter().map(|&b| b as u16).sum();
    frame.push((sum & 0xFF) as u8);
    frame.push((sum >> 8) as u8);

    let (p, consumed) = extract_frame_abcd_1byte_le16(&frame).unwrap().unwrap();
    assert_eq!(p, payload);
    assert_eq!(consumed, frame.len());
}

#[test]
fn be16_length_byte_below_two_waits() {
    let buf = vec![0xAB, 0xCD, 0x01, 0x00, 0x00, 0x00, 0x00];
    assert!(extract_frame_abcd_be16(&buf).unwrap().is_none());
}

#[test]
fn be16_mismatch_values() {
    // AB CD 03 07 -> sum 0x0182, frame says 0x0000
    let buf = vec![0xAB, 0xCD, 0x03, 0x07, 0x00, 0x00];
    match extract_frame_abcd_be16(&buf) {
        Err(Error::ChecksumMismatch { expected, actual }) => {
            assert_eq!(expected, 0x0000);
            assert_eq!(actual, 0x0182);
        }
        other => panic!("unexpected result {:?}", other),
    }
}

#[test]
fn be16_bytes_after_a_frame_change_nothing() {
    let frame = make_frame_be16(&[0x05, 0x06]);
    let mut buf = vec![0x00, 0xAB];
    buf.extend_from_slice(&frame);
    let first = extract_frame_abcd_be16(&buf).unwrap().unwrap();
    buf.extend_from_slice(&[0xAB, 0xCD, 0x09, 0x01, 0x02]);
    let again = extract_frame_abcd_be16(&buf).unwrap().unwrap();
    assert_eq!(first, again);
    assert_eq!(first, (vec![0x05, 0x06], 2 + frame.len()));
}

#[test]
fn be16_empty_payload() {
    let frame = make_frame_be16(&[]);
    assert_eq!(frame.len(), 5);
    let (p, consumed) = extract_frame_abcd_be16(&frame).unwrap().unwrap();
    assert!(p.is_empty());
    assert_eq!(consumed, 5);
}

#[test]
fn ut8803_non_measurement_frame_is_skipped() {
    let mut frame = vec![0u8; 21];
    frame[0] = 0xAB;
    frame[1] = 0xCD;
    frame[3] = 0x05;
    assert!(extract_frame_ut8803(&frame).unwrap().is_none());
}

#[test]
fn ut8803_payload_and_bad_checksum() {
    let mut frame = vec![0xAB, 0xCD, 0x07, 0x02];
    frame.extend_from_slice(&[0x11; 15]);
    let sum: u16 = frame.iter().map(|&b| b as u16).sum();
    frame.push((sum >> 8) as u8);
    frame.push((sum & 0xFF) as u8);
    let mut buf = vec![0x42];
    buf.extend_from_slice(&frame);
    let (payload, consumed) = extract_frame_ut8803(&buf).unwrap().unwrap();
    assert_eq!(payload, frame[2..19].to_vec());
    assert_eq!(consumed, 22);

    buf[21] ^= 0x01;
    match extract_frame_ut8803(&buf) {
        Err(Error::ChecksumMismatch { expected, actual }) => {
            assert_eq!(actual, sum);
            assert_eq!(expected, sum ^ 0x0001);
        }
        other => panic!("unexpected result {:?}", other),
    }
}

#[test]
fn le16_ut171_checksum_covers_length_and_payload() {
    // length 2, payload 01 02: checksum = 2 + 1 + 2 = 5, stored 05 00
    let frame = vec![0xAB, 0xCD, 0x02, 0x01, 0x02, 0x05, 0x00];
    let (p, consumed) = extract_frame_abcd_1byte_le16(&frame).unwrap().unwrap();
    assert_eq!(p, vec![0x01, 0x02]);
    assert_eq!(consumed, 7);
    let wrong = vec![0xAB, 0xCD, 0x02, 0x01, 0x02, 0x00, 0x05];
    assert!(extract_frame_abcd_1byte_le16(&wrong).is_err());
    assert!(extract_frame_abcd_1byte_le16(&frame[..6]).unwrap().is_none());
}

#[test]
fn le16_ut181a_short_length_field_waits() {
    let buf = vec![0xAB, 0xCD, 0x01, 0x00, 0x00, 0x00, 0x00];
    assert!(extract_frame_abcd_2byte_le16(&buf).unwrap().is_none());
}

#[test]
fn le16_ut181a_long_frame_checksum_wraps() {
    // 300 bytes of 0xFF: the 16-bit checksum wraps around.
    let payload = vec![0xFFu8; 300];
    let len_val = (payload.len() + 2) as u16;
    let mut frame = vec![0xAB, 0xCD, (len_val & 0xFF) as u8, (len_val >> 8) as u8];
    frame.extend_from_slice(&payload);
    let sum: u32 = frame[2..].iter().map(|&b| b as u32).sum();
    let sum = (sum % 65536) as u16;
    frame.push((sum & 0xFF) as u8);
    frame.push((sum >> 8) as u8);
    let (p, consumed) = extract_frame_abcd_2byte_le16(&frame).unwrap().unwrap();
    assert_eq!(p, payload);
    assert_eq!(consumed, frame.len());
}

#[test]
fn other_formats_bytes_after_a_frame_change_nothing() {
    // UT171
    let ut171 = vec![0xAB, 0xCD, 0x02, 0x01, 0x02, 0x05, 0x00];
    let mut buf = ut171.clone();
    buf.extend_from_slice(&[0xAB, 0xCD, 0x00]);
    assert_eq!(
        extract_frame_abcd_1byte_le16(&buf).unwrap().unwrap(),
        (vec![0x01, 0x02], 7)
    );
    // UT181A: length 3 (one payload byte), checksum 03 00 07 = 10
    let ut181a = vec![0xAB, 0xCD, 0x03, 0x00, 0x07, 0x0A, 0x00];
    let mut buf = ut181a.clone();
    buf.extend_from_slice(&[0x99; 4]);
    assert_eq!(
        extract_frame_abcd_2byte_le16(&buf).unwrap().unwrap(),
        (vec![0x07], 7)
    );
    // UT8803: a corrupt frame stays corrupt whatever follows
    let mut bad = vec![0u8; 21];
    bad[0] = 0xAB;
    bad[1] = 0xCD;
    bad[3] = 0x02;
    let before = format!("{:?}", extract_frame_ut8803(&bad));
    bad.extend_from_slice(&[0xAB, 0xCD]);
    let after = format!("{:?}", extract_frame_ut8803(&bad));
    assert_eq!(before, after);
    assert!(before.starts_with("Err(ChecksumMismatch"));
}
