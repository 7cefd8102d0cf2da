//! The WOBA codec on small crafted streams.

use hc_decode::woba::decode;

/// A minimal WOBA payload: header rectangles, stream lengths, then the
/// mask and picture streams.
fn payload(
    total: (i16, i16, i16, i16),
    mask: (i16, i16, i16, i16),
    pic: (i16, i16, i16, i16),
    mask_stream: &[u8],
    pic_stream: &[u8],
) -> Vec<u8> {
    let mut b = vec![0u8; 52];
    let rects = [total, mask, pic];
    for (i, r) in rects.iter().enumerate() {
        let at = 12 + 8 * i;
        b[at..at + 2].copy_from_slice(&r.0.to_be_bytes());
        b[at + 2..at + 4].copy_from_slice(&r.1.to_be_bytes());
        b[at + 4..at + 6].copy_from_slice(&r.2.to_be_bytes());
        b[at + 6..at + 8].copy_from_slice(&r.3.to_be_bytes());
    }
    b[44..48].copy_from_slice(&(mask_stream.len() as u32).to_be_bytes());
    b[48..52].copy_from_slice(&(pic_stream.len() as u32).to_be_bytes());
    b.extend_from_slice(mask_stream);
    b.extend_from_slice(pic_stream);
    b
}

#[test]
fn black_then_white_row() {
    // An 8-by-8 picture, no mask: one black row, one white row.
    let b = payload(
        (0, 0, 8, 8),
        (0, 0, 0, 0),
        (0, 0, 8, 8),
        &[],
        &[0x82, 0x81],
    );
    let p = decode(&b).unwrap();
    assert_eq!(p.width, 8);
    assert_eq!(p.height, 8);
    assert_eq!(p.rowbytes, 1);
    assert_eq!(p.bitmap[0], vec![0xFF]);
    assert_eq!(p.bitmap[1], vec![0x00]);
    // With no mask stream and no mask rectangle, the mask follows the
    // pixels.
    assert_eq!(p.mask, p.bitmap);
}

#[test]
fn repeat_prefix_multiplies_next_opcode() {
    // A repeat count of three before a black-row opcode writes three
    // consecutive black rows.
    let b = payload(
        (0, 0, 8, 8),
        (0, 0, 0, 0),
        (0, 0, 8, 8),
        &[],
        &[0xA3, 0x82],
    );
    let p = decode(&b).unwrap();
    assert_eq!(p.bitmap[0], vec![0xFF]);
    assert_eq!(p.bitmap[1], vec![0xFF]);
    assert_eq!(p.bitmap[2], vec![0xFF]);
    assert_eq!(p.bitmap[3], vec![0x00]);
}

#[test]
fn pattern_memory_remembers_fills() {
    // Store a pattern on row 0, skip a row with white, then reuse the
    // remembered checkerboard pattern of the initial memory on row 2.
    let b = payload(
        (0, 0, 8, 8),
        (0, 0, 0, 0),
        (0, 0, 8, 8),
        &[],
        &[0x83, 0x5A, 0x81, 0x84],
    );
    let p = decode(&b).unwrap();
    assert_eq!(p.bitmap[0], vec![0x5A]);
    assert_eq!(p.bitmap[1], vec![0x00]);
    // Row 2's pattern slot still holds the initial even-row value.
    assert_eq!(p.bitmap[2], vec![0xAA]);
}

#[test]
fn copy_row_references() {
    // A black row, a white row, then a copy of the row two back.
    let b = payload(
        (0, 0, 8, 8),
        (0, 0, 0, 0),
        (0, 0, 8, 8),
        &[],
        &[0x82, 0x81, 0x86],
    );
    let p = decode(&b).unwrap();
    assert_eq!(p.bitmap[0], vec![0xFF]);
    assert_eq!(p.bitmap[1], vec![0x00]);
    assert_eq!(p.bitmap[2], vec![0xFF]);
}

#[test]
fn data_opcode_fills_and_flushes_rows() {
    // A 32-pixel-wide picture: each 0x40 opcode carries four data bytes,
    // filling the whole four-byte row buffer, which then flushes.
    let b = payload(
        (0, 0, 2, 32),
        (0, 0, 0, 0),
        (0, 0, 2, 32),
        &[],
        &[0x40, 0xDE, 0xAD, 0xBE, 0xEF, 0x40, 0x01, 0x02, 0x03, 0x04],
    );
    let p = decode(&b).unwrap();
    assert_eq!(p.rowbytes, 4);
    assert_eq!(p.bitmap[0], vec![0xDE, 0xAD, 0xBE, 0xEF]);
    assert_eq!(p.bitmap[1], vec![0x01, 0x02, 0x03, 0x04]);
}

#[test]
fn zero_nibble_opcode_writes_zeros_then_data() {
    // Opcode 0x12: one zero byte, then two data bytes; with another two
    // data bytes the four-byte row completes and flushes.
    let b = payload(
        (0, 0, 1, 32),
        (0, 0, 0, 0),
        (0, 0, 1, 32),
        &[],
        &[0x21, 0xAB, 0xCD, 0x10, 0xEF],
    );
    let p = decode(&b).unwrap();
    assert_eq!(p.bitmap[0], vec![0x00, 0xAB, 0xCD, 0xEF]);
}

#[test]
fn plain_rectangle_mask() {
    // No mask stream, but a mask rectangle: its rows carry ones.
    let b = payload(
        (0, 0, 8, 16),
        (1, 0, 3, 16),
        (0, 0, 8, 16),
        &[],
        &[0x82],
    );
    let p = decode(&b).unwrap();
    assert_eq!(p.rowbytes, 2);
    assert_eq!(p.mask[0], vec![0x00, 0x00]);
    assert_eq!(p.mask[1], vec![0xFF, 0xFF]);
    assert_eq!(p.mask[2], vec![0xFF, 0xFF]);
    assert_eq!(p.mask[3], vec![0x00, 0x00]);
    // The picture decoded separately.
    assert_eq!(p.bitmap[0], vec![0xFF, 0xFF]);
}

#[test]
fn mask_stream_is_decoded_before_picture() {
    // Both planes carry streams: the mask's one black row, then the
    // picture's two.
    let b = payload(
        (0, 0, 4, 8),
        (0, 0, 4, 8),
        (0, 0, 4, 8),
        &[0x82],
        &[0xA2, 0x82],
    );
    let p = decode(&b).unwrap();
    assert_eq!(p.mask[0], vec![0xFF]);
    assert_eq!(p.mask[1], vec![0x00]);
    assert_eq!(p.bitmap[0], vec![0xFF]);
    assert_eq!(p.bitmap[1], vec![0xFF]);
    assert_eq!(p.bitmap[2], vec![0x00]);
}

#[test]
fn truncated_stream_is_out_of_bounds() {
    let mut b = payload(
        (0, 0, 8, 8),
        (0, 0, 0, 0),
        (0, 0, 8, 8),
        &[],
        &[0x82, 0x81],
    );
    // Declare more picture bytes than the payload holds.
    b[48..52].copy_from_slice(&10u32.to_be_bytes());
    assert!(decode(&b).is_err());
    assert!(decode(&[0u8; 20]).is_err());
}
