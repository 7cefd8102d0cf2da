//! End-to-end parses and the per-block decoders.

use hc_decode::background::Background;
use hc_decode::card::Card;
use hc_decode::error::StackError;
use hc_decode::part::Part;
use hc_decode::part::PartType;
use hc_decode::stack::Block;
use hc_decode::stack::Stack;
use hc_decode::stack::read_master_index;
use hc_decode::stack::stack_parse;
use hc_decode::style::Style;

#[test]
fn short_input_is_invalid() {
    match Stack::from(b"nope") {
        Err(StackError::InvalidFile(_)) => {},
        other => panic!("expected InvalidFile, got {:?}", other),
    }
}

#[test]
fn wrong_magic_is_invalid() {
    match Stack::from(&[0u8; 0x840]) {
        Err(StackError::InvalidFile(_)) => {},
        other => panic!("expected InvalidFile, got {:?}", other),
    }
}

#[test]
fn minimal_stack_misses_its_style_table() {
    // A minimal STAK header: a 128-byte block, id 1, all other fields
    // zero.  The parse proceeds (format NotHyperCard), finds an empty
    // master table, and fails for want of a style table.
    let mut b = vec![0u8; 0x820];
    b[3] = 0x80;
    b[4..8].copy_from_slice(b"STAK");
    b[11] = 1;
    match Stack::from(&b) {
        Err(StackError::MissingStyleTable) => {},
        other => panic!("expected MissingStyleTable, got {:?}", other),
    }
}

/// A style-table block: 16-byte header, then the table.
fn stbl_block(block_id: u32, styles: &[(u32, i16, i16, i16)]) -> Vec<u8> {
    let size = 24 + 24 * styles.len();
    let mut b = vec![0u8; size];
    b[0..4].copy_from_slice(&(size as u32).to_be_bytes());
    b[4..8].copy_from_slice(b"STBL");
    b[8..12].copy_from_slice(&block_id.to_be_bytes());
    b[16..20].copy_from_slice(&(styles.len() as u32).to_be_bytes());
    for (i, s) in styles.iter().enumerate() {
        let at = 24 + 24 * i;
        b[at..at + 4].copy_from_slice(&s.0.to_be_bytes());
        b[at + 10..at + 12].copy_from_slice(&s.1.to_be_bytes());
        b[at + 12..at + 14].copy_from_slice(&s.2.to_be_bytes());
        b[at + 14..at + 16].copy_from_slice(&s.3.to_be_bytes());
    }
    b
}

#[test]
fn style_table_dispatch_and_decoding() {
    let chunk = stbl_block(5, &[(7, 2, 3, 12), (9, 4, 0, 10)]);
    match stack_parse(0x200, 2, b"STBL", &chunk) {
        Some((id, Block::Style(m))) => {
            assert_eq!(id, 5);
            assert_eq!(m.len(), 2);
            assert_eq!(
                m.get(&7),
                Some(&Style { font: 2, style_flags: 3, font_size: 12 })
            );
            assert_eq!(
                m.get(&9),
                Some(&Style { font: 4, style_flags: 0, font_size: 10 })
            );
        },
        other => panic!("expected a style block, got {:?}", other),
    }
}

#[test]
fn unknown_and_index_tags_are_skipped() {
    let chunk = stbl_block(5, &[]);
    assert!(stack_parse(0, 1, b"LIST", &chunk).is_none());
    assert!(stack_parse(0, 1, b"PAGE", &chunk).is_none());
    assert!(stack_parse(0, 1, b"WXYZ", &chunk).is_none());
}

#[test]
fn master_index_skips_free_slots() {
    // An index holding only zero-offset slots yields no entries.
    let b = vec![0u8; 0x100];
    let slots = read_master_index(&b, 0, 64).unwrap();
    assert!(slots.is_empty());
    // A nonzero slot survives, with its offset scaled by 32.
    let mut b2 = vec![0u8; 0x100];
    b2[0..4].copy_from_slice(&[0, 0, 0x10, 0x02]);
    let slots2 = read_master_index(&b2, 0, 64).unwrap();
    assert_eq!(slots2, vec![(2u8, 0x200u32)]);
}

#[test]
fn stack_with_style_table_but_no_cards() {
    // A STAK whose master block at 0x800 points at one STBL at 0x200:
    // objects and styles populate, but the first card and background
    // cannot be resolved.
    let mut b = vec![0u8; 0x840];
    b[4..8].copy_from_slice(b"STAK");
    let stbl = stbl_block(5, &[(7, 2, 3, 12)]);
    b[0x200..0x200 + stbl.len()].copy_from_slice(&stbl);
    b[0x800..0x804].copy_from_slice(&64u32.to_be_bytes());
    b[0x804..0x808].copy_from_slice(b"MAST");
    b[0x820..0x824].copy_from_slice(&[0, 0, 0x10, 0x02]);
    match Stack::from(&b) {
        Err(StackError::InvalidFile(_)) => {},
        other => panic!("expected InvalidFile, got {:?}", other),
    }
}

/// A card block whose single part carries a name and script.
fn card_block(part: &[u8]) -> Vec<u8> {
    let size = 54 + part.len() + 2;
    let mut b = vec![0u8; size];
    b[0..4].copy_from_slice(&(size as u32).to_be_bytes());
    b[4..8].copy_from_slice(b"CARD");
    b[8..12].copy_from_slice(&9u32.to_be_bytes());
    b[16..20].copy_from_slice(&3u32.to_be_bytes());
    b[20..22].copy_from_slice(&5u16.to_be_bytes());
    b[40..42].copy_from_slice(&1u16.to_be_bytes());
    b[54..54 + part.len()].copy_from_slice(part);
    // The zero OSA-size word after the part doubles as the card's empty
    // name and script terminators.
    b
}

/// A button part record: 30 fixed bytes, then its name and script.
fn button_part(name: &[u8], script: &[u8]) -> Vec<u8> {
    let size = 30 + name.len() + script.len();
    let mut p = vec![0u8; size];
    p[0..2].copy_from_slice(&(size as u16).to_be_bytes());
    p[30..30 + name.len()].copy_from_slice(name);
    p[30 + name.len()..].copy_from_slice(script);
    p
}

#[test]
fn card_part_with_name_and_script() {
    let part = button_part(b"btn\0", b"do it\0");
    let b = card_block(&part);
    let c = Card::from(&b).unwrap();
    assert_eq!(c.id, 9);
    assert_eq!(c.bitmap_block_id, 3);
    assert_eq!(c.flags, 5);
    assert_eq!(c.parts.len(), 1);
    let p = &c.parts[0];
    assert_eq!(p.ty, PartType::Button);
    assert_eq!(p.name, "btn");
    assert_eq!(p.script, "do it");
    assert!(p.contents.is_empty());
    assert_eq!(c.name, "");
    assert_eq!(c.script, "");
}

#[test]
fn part_decodes_fixed_fields() {
    let mut part = button_part(b"\0", b"\0");
    part[2..4].copy_from_slice(&1u16.to_be_bytes());
    part[6..8].copy_from_slice(&10u16.to_be_bytes());
    part[8..10].copy_from_slice(&20u16.to_be_bytes());
    part[10..12].copy_from_slice(&30u16.to_be_bytes());
    part[12..14].copy_from_slice(&40u16.to_be_bytes());
    part[15] = 2;
    part[16..18].copy_from_slice(&12u16.to_be_bytes());
    part[20..22].copy_from_slice(&1u16.to_be_bytes());
    part[22..24].copy_from_slice(&3u16.to_be_bytes());
    part[24..26].copy_from_slice(&14u16.to_be_bytes());
    part[28..30].copy_from_slice(&16u16.to_be_bytes());
    let p = Part::from(&part, 0, 0).unwrap();
    assert_eq!(p.ty, PartType::Field);
    assert_eq!(p.position, (10, 20, 30, 40));
    assert_eq!(p.style, hc_decode::part::PartStyle::Rectangle);
    assert_eq!(p.title_width, 12);
    assert_eq!(p.text_alignment, hc_decode::part::TextAlignment::Center);
    assert_eq!(p.font_id, 3);
    assert_eq!(p.font_size, 14);
    assert_eq!(p.line_height, 16);
}

#[test]
fn part_content_entries() {
    // One content entry of declared width 8: id, a zero style marker, and
    // a text payload.
    let mut part = button_part(b"\0", b"\0");
    let base = part.len();
    part.extend_from_slice(&[0, 4, 0, b'h', b'i', 0, 0, 0]);
    let p = Part::from(&part, 1, 8).unwrap();
    assert_eq!(p.contents.len(), 1);
    assert_eq!(p.contents[0].id, 4);
    assert!(p.contents[0].styles.is_none());
    assert_eq!(p.contents[0].text, "hi");
    assert!(base == 32);
}

#[test]
fn part_content_entry_with_style_runs() {
    // A style length of 0x8008 declares (0x8008 & 0x7FFF) / 4 = 2 runs.
    let mut part = button_part(b"\0", b"\0");
    part.extend_from_slice(&[0, 4, 0x80, 0x08]);
    part.extend_from_slice(&[0, 1, 0, 7]);
    part.extend_from_slice(&[0, 3, 0, 9]);
    part.extend_from_slice(b"ok\0");
    let p = Part::from(&part, 1, 15).unwrap();
    assert_eq!(p.contents.len(), 1);
    let runs = p.contents[0].styles.as_ref().unwrap();
    assert_eq!(runs.len(), 2);
    assert_eq!(runs[0].text_position, 1);
    assert_eq!(runs[0].id, 7);
    assert_eq!(runs[1].text_position, 3);
    assert_eq!(runs[1].id, 9);
    assert_eq!(p.contents[0].text, "ok");
}

#[test]
fn background_links_and_counts() {
    // A background: 58-byte header, no parts, empty name and script.
    let mut b = vec![0u8; 60];
    b[0..4].copy_from_slice(&60u32.to_be_bytes());
    b[4..8].copy_from_slice(b"BKGD");
    b[16..20].copy_from_slice(&11u32.to_be_bytes());
    b[20..22].copy_from_slice(&1u16.to_be_bytes());
    b[32..36].copy_from_slice(&4u32.to_be_bytes());
    b[36..40].copy_from_slice(&21u32.to_be_bytes());
    b[40..44].copy_from_slice(&22u32.to_be_bytes());
    let bg = Background::from(&b).unwrap();
    assert_eq!(bg.bitmap_id, 11);
    assert_eq!(bg.flags, 1);
    assert_eq!(bg.cards_num, 4);
    assert_eq!(bg.next, 21);
    assert_eq!(bg.prev, 22);
    assert!(bg.parts.is_empty());
    assert_eq!(bg.name, "");
    assert_eq!(bg.script, "");
}

#[test]
fn truncated_card_is_out_of_bounds() {
    match Card::from(&[0u8; 10]) {
        Err(StackError::OutOfBounds) => {},
        other => panic!("expected OutOfBounds, got {:?}", other),
    }
    match Part::from(&[0u8; 10], 0, 0) {
        Err(StackError::OutOfBounds) => {},
        other => panic!("expected OutOfBounds, got {:?}", other),
    }
}
