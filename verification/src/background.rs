//! Background decoding.
//!
//! A background block shares the card's parts tail; its fixed header
//! additionally carries the next and previous background ids and a card
//! count.  Links are kept as ids and resolved lazily through the stack's
//! object map.

use vstd::prelude::*;

use crate::byte::be_u16_at;
use crate::byte::be_u32_at;
use crate::card::decode_parts_tail;
use crate::card::parts_view;
use crate::card::tail_spec;
use crate::error::StackError;
use crate::part::Part;
use crate::part::PartView;
use crate::part::clone_parts;
use vstd::slice::slice_subrange;

verus! {

/// A background: the shared template behind a run of cards.
#[derive(Debug)]
pub struct Background {
    pub bitmap_id: u32,
    pub flags: u16,
    pub cards_num: u32,
    pub parts: Vec<Part>,
    pub next: u32,
    pub prev: u32,
    pub name: String,
    pub script: String,
}

/// The mathematical value of a [`Background`].
pub ghost struct BackgroundView {
    pub bitmap_id: u32,
    pub flags: u16,
    pub cards_num: u32,
    pub parts: Seq<PartView>,
    pub next: u32,
    pub prev: u32,
    pub name: Seq<char>,
    pub script: Seq<char>,
}

impl View for Background {
    type V = BackgroundView;

    open spec fn view(&self) -> BackgroundView {
        BackgroundView {
            bitmap_id: self.bitmap_id,
            flags: self.flags,
            cards_num: self.cards_num,
            parts: parts_view(self.parts@),
            next: self.next,
            prev: self.prev,
            name: self.name@,
            script: self.script@,
        }
    }
}

impl Clone for Background {
    /// A clone denotes the same background.
    fn clone(&self) -> (r: Self)
        ensures
            r@ == self@,
    {
        let r = Background {
            bitmap_id: self.bitmap_id,
            flags: self.flags,
            cards_num: self.cards_num,
            parts: clone_parts(&self.parts),
            next: self.next,
            prev: self.prev,
            name: self.name.clone(),
            script: self.script.clone(),
        };
        proof {
            assert(r@.parts =~= self@.parts);
        }
        r
    }
}

/// The decoded value of the background block `b`, or `None` when a read
/// would leave the block.
pub open spec fn background_from_spec(b: Seq<u8>) -> Option<BackgroundView> {
    if b.len() < 58 {
        Option::None
    } else {
        match tail_spec(
            b,
            58,
            be_u16_at(b, 44),
            be_u16_at(b, 52) as u16,
            be_u32_at(b, 54) as u32,
        ) {
            Option::None => Option::None,
            Option::Some(t) => Option::Some(
                BackgroundView {
                    bitmap_id: be_u32_at(b, 16) as u32,
                    flags: be_u16_at(b, 20) as u16,
                    cards_num: be_u32_at(b, 32) as u32,
                    parts: t.0,
                    next: be_u32_at(b, 36) as u32,
                    prev: be_u32_at(b, 40) as u32,
                    name: t.1,
                    script: t.2,
                },
            ),
        }
    }
}

impl Background {
    /// Decodes a background block.  The block length is bounded by the
    /// block size field of the file format, a `u32`.
    pub fn from(b: &[u8]) -> (r: Result<Background, StackError>)
        requires
            b@.len() < 0x100000000,
        ensures
            background_from_spec(b@) is None ==> r == Err::<Background, StackError>(
                StackError::OutOfBounds,
            ),
            background_from_spec(b@) matches Some(v) ==> (r matches Ok(c) && c@ == v),
    {
        if b.len() < 58 {
            return Err(StackError::OutOfBounds);
        }
        let bitmap_id = crate::byte::u32_from_u8(slice_subrange(b, 16, 20));
        let flags = crate::byte::u16_from_u8(slice_subrange(b, 20, 22));
        let cards_num = crate::byte::u32_from_u8(slice_subrange(b, 32, 36));
        let next = crate::byte::u32_from_u8(slice_subrange(b, 36, 40));
        let prev = crate::byte::u32_from_u8(slice_subrange(b, 40, 44));
        let part_num = crate::byte::u16_from_u8(slice_subrange(b, 44, 46));
        let part_content_num = crate::byte::u16_from_u8(slice_subrange(b, 52, 54));
        let part_content_list_size = crate::byte::u32_from_u8(slice_subrange(b, 54, 58));
        let (parts, name, script) = match decode_parts_tail(
            b,
            58,
            part_num,
            part_content_num,
            part_content_list_size,
        ) {
            Ok(v) => v,
            Err(e) => {
                return Err(e);
            },
        };
        Ok(Background { bitmap_id, flags, cards_num, parts, next, prev, name, script })
    }
}

} // verus!
