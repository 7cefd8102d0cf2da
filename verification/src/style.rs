//! Style-table decoding.
//!
//! An STBL block carries a count followed by fixed-width style records.
//! Each record pairs a style id with a font id, style flags and a font
//! size; the table is returned as a mapping from style id to style, a later
//! record with the same id replacing an earlier one.

use vstd::prelude::*;

use std::collections::HashMap;

use crate::byte::be_i16_at;
use crate::byte::be_u32_at;
use crate::error::StackError;
use vstd::slice::slice_subrange;

verus! {

broadcast use vstd::std_specs::hash::group_hash_axioms;

/// One text style: a font id, style flags, and a font size.
#[derive(Debug, Clone, Copy, PartialEq, Eq, Structural)]
pub struct Style {
    pub font: i16,
    pub style_flags: i16,
    pub font_size: i16,
}

/// The decoded style record of `b` at `e`.
pub open spec fn style_at(b: Seq<u8>, e: int) -> Style {
    Style {
        font: be_i16_at(b, e + 10) as i16,
        style_flags: be_i16_at(b, e + 12) as i16,
        font_size: be_i16_at(b, e + 14) as i16,
    }
}

/// The mapping read from the first `n` style records of `b` starting at
/// `off`, each 24 bytes wide, or `None` when a record would leave the
/// block.
pub open spec fn styles_spec(b: Seq<u8>, off: int, n: int) -> Option<Map<u32, Style>>
    decreases n,
{
    if n <= 0 {
        Option::Some(Map::empty())
    } else {
        match styles_spec(b, off, n - 1) {
            Option::None => Option::None,
            Option::Some(m) => {
                let e = off + 24 * (n - 1);
                if e + 24 > b.len() {
                    Option::None
                } else {
                    Option::Some(m.insert(be_u32_at(b, e) as u32, style_at(b, e)))
                }
            },
        }
    }
}

/// The decoded value of the style-table block `b`: its records as a map
/// from style id, or `None` when a read would leave the block.
pub open spec fn style_table_spec(b: Seq<u8>) -> Option<Map<u32, Style>> {
    if b.len() < 24 {
        Option::None
    } else {
        styles_spec(b, 24, be_u32_at(b, 16))
    }
}

/// If some prefix of the records already fails to decode, so does every
/// longer prefix.
proof fn lemma_styles_spec_err(b: Seq<u8>, off: int, k: int, n: int)
    requires
        0 <= k < n,
        styles_spec(b, off, k + 1) is None,
    ensures
        styles_spec(b, off, n) is None,
    decreases n,
{
    if n > k + 1 {
        lemma_styles_spec_err(b, off, k, n - 1);
    }
}

impl Style {
    /// Decodes a style-table block into a mapping from style id to style.
    /// The block length is bounded by the block size field of the file
    /// format, a `u32`.
    pub fn vec_from(b: &[u8]) -> (r: Result<HashMap<u32, Style>, StackError>)
        requires
            b@.len() < 0x100000000,
        ensures
            style_table_spec(b@) is None ==> r == Err::<HashMap<u32, Style>, StackError>(
                StackError::OutOfBounds,
            ),
            style_table_spec(b@) matches Some(m) ==> (r matches Ok(h) && h@ == m),
    {
        if b.len() < 24 {
            return Err(StackError::OutOfBounds);
        }
        let style_num = crate::byte::u32_from_u8(slice_subrange(b, 16, 20));
        let mut styles: HashMap<u32, Style> = HashMap::new();
        let mut k: u32 = 0;
        while k < style_num
            invariant
                b@.len() < 0x100000000,
                24 <= b@.len(),
                style_num as int == be_u32_at(b@, 16),
                k <= style_num,
                styles_spec(b@, 24, k as int) == Option::Some(styles@),
            decreases style_num - k,
        {
            let e = 24u64 + 24 * (k as u64);
            if e + 24 > b.len() as u64 {
                proof {
                    assert(styles_spec(b@, 24, k + 1) is None);
                    lemma_styles_spec_err(b@, 24, k as int, style_num as int);
                }
                return Err(StackError::OutOfBounds);
            }
            let eu = e as usize;
            let id = crate::byte::u32_from_u8(slice_subrange(b, eu, eu + 4));
            let font = crate::byte::i16_from_u8(slice_subrange(b, eu + 10, eu + 12));
            let style_flags = crate::byte::i16_from_u8(slice_subrange(b, eu + 12, eu + 14));
            let font_size = crate::byte::i16_from_u8(slice_subrange(b, eu + 14, eu + 16));
            styles.insert(id, Style { font, style_flags, font_size });
            k = k + 1;
        }
        Ok(styles)
    }
}

} // verus!
