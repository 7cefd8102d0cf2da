//! Byte primitives, the Mac Roman table, version words and buffers.

use hc_decode::byte::convert_u8_array_big_to_little;
use hc_decode::byte::htons;
use hc_decode::byte::i16_from_i8;
use hc_decode::byte::i16_from_u8;
use hc_decode::byte::i24_from_i8;
use hc_decode::byte::i24_from_u8;
use hc_decode::byte::i32_from_i8;
use hc_decode::byte::i32_from_u8;
use hc_decode::byte::i64_from_i8;
use hc_decode::byte::i64_from_u8;
use hc_decode::byte::min;
use hc_decode::byte::ntohs;
use hc_decode::byte::read_u16_at;
use hc_decode::byte::read_u32_at;
use hc_decode::byte::u16_from_u8;
use hc_decode::byte::u16_to_u8;
use hc_decode::byte::u24_from_u8;
use hc_decode::byte::u24_to_u8;
use hc_decode::byte::u32_from_u8;
use hc_decode::byte::u32_to_u8;
use hc_decode::byte::u64_from_u8;
use hc_decode::byte::u64_to_u8;
use hc_decode::cbuf::CBuf;
use hc_decode::error::StackError;
use hc_decode::macroman::macroman_to_char;
use hc_decode::stack::HyperCardVersionState;
use hc_decode::stack::HyperCardVersionStatus;
use hc_decode::stack::HypercardVersion;
use hc_decode::stack::StackFormat;
use hc_decode::stack::stack_format;

#[test]
fn big_endian_readers_exact_values() {
    assert_eq!(u16_from_u8(&[0x12, 0x34]), 0x1234);
    assert_eq!(u24_from_u8(&[0x12, 0x34, 0x56]), 0x123456);
    assert_eq!(u32_from_u8(&[0x12, 0x34, 0x56, 0x78]), 0x12345678);
    assert_eq!(
        u64_from_u8(&[0x12, 0x34, 0x56, 0x78, 0x9A, 0xBC, 0xDE, 0xF0]),
        0x123456789ABCDEF0
    );
    assert_eq!(i16_from_u8(&[0xFF, 0xFF]), -1);
    assert_eq!(i16_from_u8(&[0x7F, 0xFF]), 0x7FFF);
    assert_eq!(i32_from_u8(&[0x80, 0, 0, 0]), i32::MIN);
    assert_eq!(i64_from_u8(&[0xFF; 8]), -1);
    assert_eq!(i16_from_i8(&[-1, -1]), -1);
    assert_eq!(i24_from_i8(&[-1, -1, -1]), -1);
    assert_eq!(i24_from_u8(&[-1, -1, -1]), -1);
    assert_eq!(i24_from_u8(&[0x7F, -1, -1]), 0x7FFFFF);
    assert_eq!(i24_from_u8(&[-128, 0, 0]), -0x800000);
    assert_eq!(i24_from_u8(&[0, 0, 1]), 1);
    assert_eq!(i32_from_i8(&[0, 0, 0, 2]), 2);
    assert_eq!(i64_from_i8(&[0, 0, 0, 0, 0, 0, 0, 3]), 3);
}

#[test]
fn big_endian_round_trips() {
    for x in [0u16, 1, 0x1234, 0xFFFF] {
        assert_eq!(u16_from_u8(&u16_to_u8(x)), x);
    }
    for x in [0u32, 1, 0x123456, 0xFFFFFF, 0xFFFFFFFF] {
        assert_eq!(u24_from_u8(&u24_to_u8(x)), x & 0xFFFFFF);
    }
    for x in [0u32, 1, 0x12345678, 0xFFFFFFFF] {
        assert_eq!(u32_from_u8(&u32_to_u8(x)), x);
    }
    for x in [0u64, 1, 0x123456789ABCDEF0, u64::MAX] {
        assert_eq!(u64_from_u8(&u64_to_u8(x)), x);
    }
}

#[test]
fn checked_readers_fail_out_of_bounds() {
    assert_eq!(read_u16_at(&[1], 0), Err(StackError::OutOfBounds));
    assert_eq!(read_u16_at(&[1, 2], 1), Err(StackError::OutOfBounds));
    assert_eq!(read_u16_at(&[1, 2], 0), Ok(0x0102));
    assert_eq!(read_u32_at(&[1, 2, 3], 0), Err(StackError::OutOfBounds));
}

#[test]
fn bit_reversal_and_byte_swaps() {
    let r = convert_u8_array_big_to_little(&[0b10000000, 0b00000001, 0xFF, 0x00]);
    assert_eq!(r, vec![0b00000001, 0b10000000, 0xFF, 0x00]);
    assert_eq!(htons(0x1234), 0x3412);
    assert_eq!(ntohs(0x3412), 0x1234);
    assert_eq!(min(3, 7), 3);
    assert_eq!(min(7, 3), 3);
}

#[test]
fn macroman_low_half_is_ascii() {
    for b in 0u8..0x80 {
        assert_eq!(macroman_to_char(b) as u32, b as u32);
    }
    assert_eq!(macroman_to_char(b'A'), 'A');
}

#[test]
fn macroman_high_half_entries() {
    assert_eq!(macroman_to_char(0x80), '\u{00C4}');
    assert_eq!(macroman_to_char(0xA5), '\u{2022}');
    assert_eq!(macroman_to_char(0xCA), '\u{00A0}');
    assert_eq!(macroman_to_char(0xF0), '\u{F8FF}');
    assert_eq!(macroman_to_char(0xFF), '\u{02C7}');
}

#[test]
fn macroman_table_is_bijective() {
    // Every 8-bit input maps to exactly one scalar, and no two inputs
    // share one: the table is bijective onto its image.
    let mut seen: Vec<u32> = (0u32..256).map(|b| macroman_to_char(b as u8) as u32).collect();
    seen.sort();
    for w in seen.windows(2) {
        assert!(w[0] < w[1]);
    }
}

#[test]
fn version_word_fields() {
    let v = HypercardVersion(0x02419980);
    assert_eq!(v.whole(), 0x02419980);
    assert_eq!(v.major(), 2);
    // The state byte 0x99 reads as 99 in packed BCD: not one of the named
    // states.
    assert_eq!(v.state(), HyperCardVersionState::Unknown(99));
    // The status byte 0x80 reads as 80 in packed BCD.
    assert_eq!(v.version_status(), HyperCardVersionStatus::Development(80));
    let beta = HypercardVersion(0x02206000);
    assert_eq!(beta.state(), HyperCardVersionState::Beta);
    assert_eq!(
        HypercardVersion(0x01008000).state(),
        HyperCardVersionState::Final
    );
    assert_eq!(
        HypercardVersion(0x01008000).version_status(),
        HyperCardVersionStatus::Release
    );
}

#[test]
fn format_codes() {
    assert_eq!(stack_format(0), StackFormat::NotHyperCard);
    assert_eq!(stack_format(1), StackFormat::PreReleaseHyperCard1x);
    assert_eq!(stack_format(7), StackFormat::PreReleaseHyperCard1x);
    assert_eq!(stack_format(8), StackFormat::HyperCard1x);
    assert_eq!(stack_format(9), StackFormat::PreReleaseHyperCard2x);
    assert_eq!(stack_format(10), StackFormat::HyperCard2x);
    assert_eq!(stack_format(11), StackFormat::Unsupported);
    assert_eq!(stack_format(u32::MAX), StackFormat::Unsupported);
}

#[test]
fn cbuf_copy_clips_at_the_end() {
    let mut b = CBuf::new_with_size(4);
    b.memcpy_char(2, &[1, 2, 3, 4], 0, 4);
    assert_eq!(b.get(0), 0);
    assert_eq!(b.get(1), 0);
    assert_eq!(b.get(2), 1);
    assert_eq!(b.get(3), 2);
    assert_eq!(b.size(), 4);
}

#[test]
fn cbuf_shift_moves_bits_right() {
    let mut b = CBuf::new_with_size(2);
    b.set(0, 0b10000001);
    b.set(1, 0b00000000);
    b.shiftnstr(0, 2, 1);
    assert_eq!(b.get(0), 0b01000000);
    assert_eq!(b.get(1), 0b10000000);
    let mut c = CBuf::new_with_size(3);
    c.set(0, 0xAB);
    c.set(1, 0xCD);
    c.set(2, 0xEF);
    c.shiftnstr(0, 3, 8);
    assert_eq!(c.get(0), 0x00);
    assert_eq!(c.get(1), 0xAB);
    assert_eq!(c.get(2), 0xCD);
}

#[test]
fn cbuf_xor_combines() {
    let mut a = CBuf::new_with_size(2);
    a.set(0, 0xF0);
    a.set(1, 0x0F);
    let mut b = CBuf::new_with_size(2);
    b.set(0, 0xFF);
    b.set(1, 0xFF);
    a.xornstr_buf(0, &b, 0, 2);
    assert_eq!(a.get(0), 0x0F);
    assert_eq!(a.get(1), 0xF0);
}
