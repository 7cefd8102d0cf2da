//! The Mac Roman character set.
//!
//! Every textual field of a stack file is stored as Mac Roman bytes.  The
//! low half of the table is plain ASCII; the high half maps each byte to a
//! fixed Unicode scalar.  The table is injective, so each 8-bit input has a
//! Unicode scalar of its own.

use vstd::prelude::*;

verus! {

/// The Unicode scalar value that the Mac Roman table assigns to `b`.
pub open spec fn macroman_scalar(b: u8) -> u32 {
    if b < 0x80 {
        b as u32
    } else {
        match b {
            0x80 => 0xc4,
            0x81 => 0xc5,
            0x82 => 0xc7,
            0x83 => 0xc9,
            0x84 => 0xd1,
            0x85 => 0xd6,
            0x86 => 0xdc,
            0x87 => 0xe1,
            0x88 => 0xe0,
            0x89 => 0xe2,
            0x8a => 0xe4,
            0x8b => 0xe3,
            0x8c => 0xe5,
            0x8d => 0xe7,
            0x8e => 0xe9,
            0x8f => 0xe8,
            0x90 => 0xea,
            0x91 => 0xeb,
            0x92 => 0xed,
            0x93 => 0xec,
            0x94 => 0xee,
            0x95 => 0xef,
            0x96 => 0xf1,
            0x97 => 0xf3,
            0x98 => 0xf2,
            0x99 => 0xf4,
            0x9a => 0xf6,
            0x9b => 0xf5,
            0x9c => 0xfa,
            0x9d => 0xf9,
            0x9e => 0xfb,
            0x9f => 0xfc,
            0xa0 => 0x2020,
            0xa1 => 0xb0,
            0xa2 => 0xa2,
            0xa3 => 0xa3,
            0xa4 => 0xa7,
            0xa5 => 0x2022,
            0xa6 => 0xb6,
            0xa7 => 0xdf,
            0xa8 => 0xae,
            0xa9 => 0xa9,
            0xaa => 0x2122,
            0xab => 0xb4,
            0xac => 0xa8,
            0xad => 0x2260,
            0xae => 0xc6,
            0xaf => 0xd8,
            0xb0 => 0x221e,
            0xb1 => 0xb1,
            0xb2 => 0x2264,
            0xb3 => 0x2265,
            0xb4 => 0xa5,
            0xb5 => 0xb5,
            0xb6 => 0x2202,
            0xb7 => 0x2211,
            0xb8 => 0x220f,
            0xb9 => 0x3c0,
            0xba => 0x222b,
            0xbb => 0xaa,
            0xbc => 0xba,
            0xbd => 0x3a9,
            0xbe => 0xe6,
            0xbf => 0xf8,
            0xc0 => 0xbf,
            0xc1 => 0xa1,
            0xc2 => 0xac,
            0xc3 => 0x221a,
            0xc4 => 0x192,
            0xc5 => 0x2248,
            0xc6 => 0x2206,
            0xc7 => 0xab,
            0xc8 => 0xbb,
            0xc9 => 0x2026,
            0xca => 0xa0,
            0xcb => 0xc0,
            0xcc => 0xc3,
            0xcd => 0xd5,
            0xce => 0x152,
            0xcf => 0x153,
            0xd0 => 0x2013,
            0xd1 => 0x2014,
            0xd2 => 0x201c,
            0xd3 => 0x201d,
            0xd4 => 0x2018,
            0xd5 => 0x2019,
            0xd6 => 0xf7,
            0xd7 => 0x25ca,
            0xd8 => 0xff,
            0xd9 => 0x178,
            0xda => 0x2044,
            0xdb => 0x20ac,
            0xdc => 0x2039,
            0xdd => 0x203a,
            0xde => 0xfb01,
            0xdf => 0xfb02,
            0xe0 => 0x2021,
            0xe1 => 0xb7,
            0xe2 => 0x201a,
            0xe3 => 0x201e,
            0xe4 => 0x2030,
            0xe5 => 0xc2,
            0xe6 => 0xca,
            0xe7 => 0xc1,
            0xe8 => 0xcb,
            0xe9 => 0xc8,
            0xea => 0xcd,
            0xeb => 0xce,
            0xec => 0xcf,
            0xed => 0xcc,
            0xee => 0xd3,
            0xef => 0xd4,
            0xf0 => 0xf8ff,
            0xf1 => 0xd2,
            0xf2 => 0xda,
            0xf3 => 0xdb,
            0xf4 => 0xd9,
            0xf5 => 0x131,
            0xf6 => 0x2c6,
            0xf7 => 0x2dc,
            0xf8 => 0xaf,
            0xf9 => 0x2d8,
            0xfa => 0x2d9,
            0xfb => 0x2da,
            0xfc => 0xb8,
            0xfd => 0x2dd,
            0xfe => 0x2db,
            0xff => 0x2c7,
            _ => 0x02C7,
        }
    }
}

/// The Mac Roman byte whose table entry is the scalar `u`, or -1 when `u`
/// is not in the table's image.
pub open spec fn macroman_byte_of(u: u32) -> int {
    if u < 0x80 {
        u as int
    } else {
        match u {
            0xc4 => 0x80,
            0xc5 => 0x81,
            0xc7 => 0x82,
            0xc9 => 0x83,
            0xd1 => 0x84,
            0xd6 => 0x85,
            0xdc => 0x86,
            0xe1 => 0x87,
            0xe0 => 0x88,
            0xe2 => 0x89,
            0xe4 => 0x8a,
            0xe3 => 0x8b,
            0xe5 => 0x8c,
            0xe7 => 0x8d,
            0xe9 => 0x8e,
            0xe8 => 0x8f,
            0xea => 0x90,
            0xeb => 0x91,
            0xed => 0x92,
            0xec => 0x93,
            0xee => 0x94,
            0xef => 0x95,
            0xf1 => 0x96,
            0xf3 => 0x97,
            0xf2 => 0x98,
            0xf4 => 0x99,
            0xf6 => 0x9a,
            0xf5 => 0x9b,
            0xfa => 0x9c,
            0xf9 => 0x9d,
            0xfb => 0x9e,
            0xfc => 0x9f,
            0x2020 => 0xa0,
            0xb0 => 0xa1,
            0xa2 => 0xa2,
            0xa3 => 0xa3,
            0xa7 => 0xa4,
            0x2022 => 0xa5,
            0xb6 => 0xa6,
            0xdf => 0xa7,
            0xae => 0xa8,
            0xa9 => 0xa9,
            0x2122 => 0xaa,
            0xb4 => 0xab,
            0xa8 => 0xac,
            0x2260 => 0xad,
            0xc6 => 0xae,
            0xd8 => 0xaf,
            0x221e => 0xb0,
            0xb1 => 0xb1,
            0x2264 => 0xb2,
            0x2265 => 0xb3,
            0xa5 => 0xb4,
            0xb5 => 0xb5,
            0x2202 => 0xb6,
            0x2211 => 0xb7,
            0x220f => 0xb8,
            0x3c0 => 0xb9,
            0x222b => 0xba,
            0xaa => 0xbb,
            0xba => 0xbc,
            0x3a9 => 0xbd,
            0xe6 => 0xbe,
            0xf8 => 0xbf,
            0xbf => 0xc0,
            0xa1 => 0xc1,
            0xac => 0xc2,
            0x221a => 0xc3,
            0x192 => 0xc4,
            0x2248 => 0xc5,
            0x2206 => 0xc6,
            0xab => 0xc7,
            0xbb => 0xc8,
            0x2026 => 0xc9,
            0xa0 => 0xca,
            0xc0 => 0xcb,
            0xc3 => 0xcc,
            0xd5 => 0xcd,
            0x152 => 0xce,
            0x153 => 0xcf,
            0x2013 => 0xd0,
            0x2014 => 0xd1,
            0x201c => 0xd2,
            0x201d => 0xd3,
            0x2018 => 0xd4,
            0x2019 => 0xd5,
            0xf7 => 0xd6,
            0x25ca => 0xd7,
            0xff => 0xd8,
            0x178 => 0xd9,
            0x2044 => 0xda,
            0x20ac => 0xdb,
            0x2039 => 0xdc,
            0x203a => 0xdd,
            0xfb01 => 0xde,
            0xfb02 => 0xdf,
            0x2021 => 0xe0,
            0xb7 => 0xe1,
            0x201a => 0xe2,
            0x201e => 0xe3,
            0x2030 => 0xe4,
            0xc2 => 0xe5,
            0xca => 0xe6,
            0xc1 => 0xe7,
            0xcb => 0xe8,
            0xc8 => 0xe9,
            0xcd => 0xea,
            0xce => 0xeb,
            0xcf => 0xec,
            0xcc => 0xed,
            0xd3 => 0xee,
            0xd4 => 0xef,
            0xf8ff => 0xf0,
            0xd2 => 0xf1,
            0xda => 0xf2,
            0xdb => 0xf3,
            0xd9 => 0xf4,
            0x131 => 0xf5,
            0x2c6 => 0xf6,
            0x2dc => 0xf7,
            0xaf => 0xf8,
            0x2d8 => 0xf9,
            0x2d9 => 0xfa,
            0x2da => 0xfb,
            0xb8 => 0xfc,
            0x2dd => 0xfd,
            0x2db => 0xfe,
            0x2c7 => 0xff,
            _ => -1,
        }
    }
}

/// Transliterates one Mac Roman byte to its Unicode scalar.
pub fn macroman_to_char(b: u8) -> (c: char)
    ensures
        c as u32 == macroman_scalar(b),
{
    match b {
        0x0 => '\u{0000}',
        0x1 => '\u{0001}',
        0x2 => '\u{0002}',
        0x3 => '\u{0003}',
        0x4 => '\u{0004}',
        0x5 => '\u{0005}',
        0x6 => '\u{0006}',
        0x7 => '\u{0007}',
        0x8 => '\u{0008}',
        0x9 => '\u{0009}',
        0xa => '\u{000A}',
        0xb => '\u{000B}',
        0xc => '\u{000C}',
        0xd => '\u{000D}',
        0xe => '\u{000E}',
        0xf => '\u{000F}',
        0x10 => '\u{0010}',
        0x11 => '\u{0011}',
        0x12 => '\u{0012}',
        0x13 => '\u{0013}',
        0x14 => '\u{0014}',
        0x15 => '\u{0015}',
        0x16 => '\u{0016}',
        0x17 => '\u{0017}',
        0x18 => '\u{0018}',
        0x19 => '\u{0019}',
        0x1a => '\u{001A}',
        0x1b => '\u{001B}',
        0x1c => '\u{001C}',
        0x1d => '\u{001D}',
        0x1e => '\u{001E}',
        0x1f => '\u{001F}',
        0x20 => '\u{0020}',
        0x21 => '\u{0021}',
        0x22 => '\u{0022}',
        0x23 => '\u{0023}',
        0x24 => '\u{0024}',
        0x25 => '\u{0025}',
        0x26 => '\u{0026}',
        0x27 => '\u{0027}',
        0x28 => '\u{0028}',
        0x29 => '\u{0029}',
        0x2a => '\u{002A}',
        0x2b => '\u{002B}',
        0x2c => '\u{002C}',
        0x2d => '\u{002D}',
        0x2e => '\u{002E}',
        0x2f => '\u{002F}',
        0x30 => '\u{0030}',
        0x31 => '\u{0031}',
        0x32 => '\u{0032}',
        0x33 => '\u{0033}',
        0x34 => '\u{0034}',
        0x35 => '\u{0035}',
        0x36 => '\u{0036}',
        0x37 => '\u{0037}',
        0x38 => '\u{0038}',
        0x39 => '\u{0039}',
        0x3a => '\u{003A}',
        0x3b => '\u{003B}',
        0x3c => '\u{003C}',
        0x3d => '\u{003D}',
        0x3e => '\u{003E}',
        0x3f => '\u{003F}',
        0x40 => '\u{0040}',
        0x41 => '\u{0041}',
        0x42 => '\u{0042}',
        0x43 => '\u{0043}',
        0x44 => '\u{0044}',
        0x45 => '\u{0045}',
        0x46 => '\u{0046}',
        0x47 => '\u{0047}',
        0x48 => '\u{0048}',
        0x49 => '\u{0049}',
        0x4a => '\u{004A}',
        0x4b => '\u{004B}',
        0x4c => '\u{004C}',
        0x4d => '\u{004D}',
        0x4e => '\u{004E}',
        0x4f => '\u{004F}',
        0x50 => '\u{0050}',
        0x51 => '\u{0051}',
        0x52 => '\u{0052}',
        0x53 => '\u{0053}',
        0x54 => '\u{0054}',
        0x55 => '\u{0055}',
        0x56 => '\u{0056}',
        0x57 => '\u{0057}',
        0x58 => '\u{0058}',
        0x59 => '\u{0059}',
        0x5a => '\u{005A}',
        0x5b => '\u{005B}',
        0x5c => '\u{005C}',
        0x5d => '\u{005D}',
        0x5e => '\u{005E}',
        0x5f => '\u{005F}',
        0x60 => '\u{0060}',
        0x61 => '\u{0061}',
        0x62 => '\u{0062}',
        0x63 => '\u{0063}',
        0x64 => '\u{0064}',
        0x65 => '\u{0065}',
        0x66 => '\u{0066}',
        0x67 => '\u{0067}',
        0x68 => '\u{0068}',
        0x69 => '\u{0069}',
        0x6a => '\u{006A}',
        0x6b => '\u{006B}',
        0x6c => '\u{006C}',
        0x6d => '\u{006D}',
        0x6e => '\u{006E}',
        0x6f => '\u{006F}',
        0x70 => '\u{0070}',
        0x71 => '\u{0071}',
        0x72 => '\u{0072}',
        0x73 => '\u{0073}',
        0x74 => '\u{0074}',
        0x75 => '\u{0075}',
        0x76 => '\u{0076}',
        0x77 => '\u{0077}',
        0x78 => '\u{0078}',
        0x79 => '\u{0079}',
        0x7a => '\u{007A}',
        0x7b => '\u{007B}',
        0x7c => '\u{007C}',
        0x7d => '\u{007D}',
        0x7e => '\u{007E}',
        0x7f => '\u{007F}',
        0x80 => '\u{00C4}',
        0x81 => '\u{00C5}',
        0x82 => '\u{00C7}',
        0x83 => '\u{00C9}',
        0x84 => '\u{00D1}',
        0x85 => '\u{00D6}',
        0x86 => '\u{00DC}',
        0x87 => '\u{00E1}',
        0x88 => '\u{00E0}',
        0x89 => '\u{00E2}',
        0x8a => '\u{00E4}',
        0x8b => '\u{00E3}',
        0x8c => '\u{00E5}',
        0x8d => '\u{00E7}',
        0x8e => '\u{00E9}',
        0x8f => '\u{00E8}',
        0x90 => '\u{00EA}',
        0x91 => '\u{00EB}',
        0x92 => '\u{00ED}',
        0x93 => '\u{00EC}',
        0x94 => '\u{00EE}',
        0x95 => '\u{00EF}',
        0x96 => '\u{00F1}',
        0x97 => '\u{00F3}',
        0x98 => '\u{00F2}',
        0x99 => '\u{00F4}',
        0x9a => '\u{00F6}',
        0x9b => '\u{00F5}',
        0x9c => '\u{00FA}',
        0x9d => '\u{00F9}',
        0x9e => '\u{00FB}',
        0x9f => '\u{00FC}',
        0xa0 => '\u{2020}',
        0xa1 => '\u{00B0}',
        0xa2 => '\u{00A2}',
        0xa3 => '\u{00A3}',
        0xa4 => '\u{00A7}',
        0xa5 => '\u{2022}',
        0xa6 => '\u{00B6}',
        0xa7 => '\u{00DF}',
        0xa8 => '\u{00AE}',
        0xa9 => '\u{00A9}',
        0xaa => '\u{2122}',
        0xab => '\u{00B4}',
        0xac => '\u{00A8}',
        0xad => '\u{2260}',
        0xae => '\u{00C6}',
        0xaf => '\u{00D8}',
        0xb0 => '\u{221E}',
        0xb1 => '\u{00B1}',
        0xb2 => '\u{2264}',
        0xb3 => '\u{2265}',
        0xb4 => '\u{00A5}',
        0xb5 => '\u{00B5}',
        0xb6 => '\u{2202}',
        0xb7 => '\u{2211}',
        0xb8 => '\u{220F}',
        0xb9 => '\u{03C0}',
        0xba => '\u{222B}',
        0xbb => '\u{00AA}',
        0xbc => '\u{00BA}',
        0xbd => '\u{03A9}',
        0xbe => '\u{00E6}',
        0xbf => '\u{00F8}',
        0xc0 => '\u{00BF}',
        0xc1 => '\u{00A1}',
        0xc2 => '\u{00AC}',
        0xc3 => '\u{221A}',
        0xc4 => '\u{0192}',
        0xc5 => '\u{2248}',
        0xc6 => '\u{2206}',
        0xc7 => '\u{00AB}',
        0xc8 => '\u{00BB}',
        0xc9 => '\u{2026}',
        0xca => '\u{00A0}',
        0xcb => '\u{00C0}',
        0xcc => '\u{00C3}',
        0xcd => '\u{00D5}',
        0xce => '\u{0152}',
        0xcf => '\u{0153}',
        0xd0 => '\u{2013}',
        0xd1 => '\u{2014}',
        0xd2 => '\u{201C}',
        0xd3 => '\u{201D}',
        0xd4 => '\u{2018}',
        0xd5 => '\u{2019}',
        0xd6 => '\u{00F7}',
        0xd7 => '\u{25CA}',
        0xd8 => '\u{00FF}',
        0xd9 => '\u{0178}',
        0xda => '\u{2044}',
        0xdb => '\u{20AC}',
        0xdc => '\u{2039}',
        0xdd => '\u{203A}',
        0xde => '\u{FB01}',
        0xdf => '\u{FB02}',
        0xe0 => '\u{2021}',
        0xe1 => '\u{00B7}',
        0xe2 => '\u{201A}',
        0xe3 => '\u{201E}',
        0xe4 => '\u{2030}',
        0xe5 => '\u{00C2}',
        0xe6 => '\u{00CA}',
        0xe7 => '\u{00C1}',
        0xe8 => '\u{00CB}',
        0xe9 => '\u{00C8}',
        0xea => '\u{00CD}',
        0xeb => '\u{00CE}',
        0xec => '\u{00CF}',
        0xed => '\u{00CC}',
        0xee => '\u{00D3}',
        0xef => '\u{00D4}',
        0xf0 => '\u{F8FF}',
        0xf1 => '\u{00D2}',
        0xf2 => '\u{00DA}',
        0xf3 => '\u{00DB}',
        0xf4 => '\u{00D9}',
        0xf5 => '\u{0131}',
        0xf6 => '\u{02C6}',
        0xf7 => '\u{02DC}',
        0xf8 => '\u{00AF}',
        0xf9 => '\u{02D8}',
        0xfa => '\u{02D9}',
        0xfb => '\u{02DA}',
        0xfc => '\u{00B8}',
        0xfd => '\u{02DD}',
        0xfe => '\u{02DB}',
        _ => '\u{02C7}',
    }
}

/// Law: the Mac Roman table is injective, so it is bijective onto its
/// image.  Reading an entry's scalar back through the table recovers the
/// byte, and no two bytes share a scalar.
pub proof fn lemma_macroman_bijective()
    ensures
        forall|b: u8| macroman_byte_of(#[trigger] macroman_scalar(b)) == b as int,
        forall|a: u8, b: u8| macroman_scalar(a) == macroman_scalar(b) ==> a == b,
{
    assert forall|b: u8| macroman_byte_of(#[trigger] macroman_scalar(b)) == b as int by {
        if b < 0x80 {
            assert(macroman_scalar(b) == b as u32);
        }
    }
}

} // verus!
