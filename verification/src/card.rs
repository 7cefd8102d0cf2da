//! Card decoding, and the parts tail shared with backgrounds.
//!
//! A card block holds a fixed header followed by `part_num` part records,
//! then two null-terminated Mac Roman strings: the card's name and its
//! script.  Each part record is prefixed by its size; after a part, a
//! second size word declares optional OSA script data, of which an eighth
//! is skipped.  A part whose declared slice leaves the block is retried
//! with an open-ended slice; records whose size word cannot be read end the
//! walk early.

use vstd::prelude::*;

use crate::byte::be_u16_at;
use crate::byte::be_u32_at;
use crate::error::StackError;
use crate::part::Part;
use crate::part::PartView;
use crate::part::clone_parts;
use crate::part::part_from_spec;
use crate::text::find_zero;
use crate::text::macroman_seq;
use crate::text::scan_cstring;
use vstd::slice::slice_subrange;

verus! {

/// The decoded part records of `b` starting at `off`, with the offset that
/// follows them.  `i` counts the records already walked: the record slice
/// begins `i` record-sizes past the cursor, a quirk of the file format's
/// producers that this decoder keeps.  A record whose size word sits past
/// the end of the block ends the walk; a record that cannot be decoded even
/// open-ended is an error.
pub open spec fn walk_step(b: Seq<u8>, off: int, i: int, n: u16, w: u32) -> Option<
    (PartView, int),
> {
    let ps = be_u16_at(b, off);
    let lo = off + i * ps;
    let hi = off + (i + 1) * ps;
    if lo > b.len() {
        Option::None
    } else {
        let first = if hi <= b.len() {
            part_from_spec(b.subrange(lo, hi), n, w)
        } else {
            Option::None
        };
        let pv = if first is Some {
            first
        } else {
            part_from_spec(b.subrange(lo, b.len() as int), n, w)
        };
        match pv {
            Option::None => Option::None,
            Option::Some(p) => {
                let off2 = off + ps;
                if off2 + 2 > b.len() {
                    Option::None
                } else {
                    Option::Some((p, off2 + be_u16_at(b, off2) / 8))
                }
            },
        }
    }
}

pub open spec fn parts_walk(b: Seq<u8>, off: int, i: int, part_num: int, n: u16, w: u32) -> Option<
    (Seq<PartView>, int),
>
    decreases part_num - i,
{
    if i >= part_num {
        Option::Some((Seq::empty(), off))
    } else if off + 2 >= b.len() {
        Option::Some((Seq::empty(), off))
    } else {
        match walk_step(b, off, i, n, w) {
            Option::None => Option::None,
            Option::Some((p, off3)) => match parts_walk(b, off3, i + 1, part_num, n, w) {
                Option::None => Option::None,
                Option::Some((rest, fo)) => Option::Some((seq![p] + rest, fo)),
            },
        }
    }
}

/// Decodes one part record of `b` at `off`, the `i`th of its block, and
/// computes the offset of the record that follows it.
fn decode_walk_step(b: &[u8], off: u64, i: u16, n: u16, w: u32) -> (r: Result<
    (Part, u64),
    StackError,
>)
    requires
        b@.len() < 0x100000000,
        off + 2 < b@.len(),
    ensures
        walk_step(b@, off as int, i as int, n, w) is None ==> r == Err::<(Part, u64), StackError>(
            StackError::OutOfBounds,
        ),
        walk_step(b@, off as int, i as int, n, w) matches Some(s) ==> (r matches Ok((p, off3))
            && p@ == s.0 && off3 == s.1 && off3 < b@.len() + 0x2000),
{
    let offu = off as usize;
    let ps = (b[offu] as u64) * 0x100 + (b[offu + 1] as u64);
    proof {
        assert(0 <= (i as int) * (ps as int) && (i as int) * (ps as int) <= ((i as int) + 1) * (
        ps as int) && ((i as int) + 1) * (ps as int) <= (0xFFFF + 1) * 0xFFFF) by (nonlinear_arith)
            requires
                i <= 0xFFFF && ps <= 0xFFFF,
        ;
    }
    let lo = off + (i as u64) * ps;
    let hi = off + ((i as u64) + 1) * ps;
    if lo > b.len() as u64 {
        return Err(StackError::OutOfBounds);
    }
    let attempt = if hi <= b.len() as u64 {
        Part::from(slice_subrange(b, lo as usize, hi as usize), n, w)
    } else {
        Err(StackError::OutOfBounds)
    };
    let p = match attempt {
        Ok(p) => p,
        Err(_) => {
            match Part::from(slice_subrange(b, lo as usize, b.len()), n, w) {
                Ok(p) => p,
                Err(_) => {
                    return Err(StackError::OutOfBounds);
                },
            }
        },
    };
    let off2 = off + ps;
    if off2 + 2 > b.len() as u64 {
        return Err(StackError::OutOfBounds);
    }
    let off2u = off2 as usize;
    let osa = (b[off2u] as u64) * 0x100 + (b[off2u + 1] as u64);
    Ok((p, off2 + osa / 8))
}

/// The decoded parts tail of `b` starting at `start`: the part records,
/// then the name and script strings that follow them.
pub open spec fn tail_spec(b: Seq<u8>, start: int, part_num: int, n: u16, w: u32) -> Option<
    (Seq<PartView>, Seq<char>, Seq<char>),
> {
    match parts_walk(b, start, 0, part_num, n, w) {
        Option::None => Option::None,
        Option::Some((parts, off)) => {
            let z1 = find_zero(b, off);
            if z1 < 0 {
                Option::None
            } else {
                let z2 = find_zero(b, z1 + 1);
                if z2 < 0 {
                    Option::None
                } else {
                    Option::Some(
                        (parts, macroman_seq(b.subrange(off, z1)), macroman_seq(
                            b.subrange(z1 + 1, z2),
                        )),
                    )
                }
            }
        },
    }
}

/// The views of a vector of parts.
pub open spec fn parts_view(v: Seq<Part>) -> Seq<PartView> {
    Seq::new(v.len(), |k: int| v[k]@)
}

/// Decodes the parts tail of `b` starting at `start`: `part_num` part
/// records, then the name and script strings.
#[verifier::rlimit(100)]
pub fn decode_parts_tail(
    b: &[u8],
    start: u64,
    part_num: u16,
    part_content_num: u16,
    part_content_list_size: u32,
) -> (r: Result<(Vec<Part>, String, String), StackError>)
    requires
        b@.len() < 0x100000000,
        start < 0x100000000,
    ensures
        tail_spec(b@, start as int, part_num as int, part_content_num, part_content_list_size)
            is None ==> r == Err::<(Vec<Part>, String, String), StackError>(
            StackError::OutOfBounds,
        ),
        (tail_spec(
            b@,
            start as int,
            part_num as int,
            part_content_num,
            part_content_list_size,
        ) matches Some(t) ==> (r matches Ok((parts, name, script)) && parts_view(parts@) == t.0
            && name@ == t.1 && script@ == t.2)),
{
    let ghost pn = part_num as int;
    let ghost n = part_content_num;
    let ghost w = part_content_list_size;
    let mut parts: Vec<Part> = Vec::new();
    let mut off: u64 = start;
    let mut i: u16 = 0;
    while i < part_num && off + 2 < b.len() as u64
        invariant
            b@.len() < 0x100000000,
            i <= part_num,
            off < 0x100000000 + 0x2000,
            parts@.len() == i,
            pn == part_num as int && n == part_content_num && w == part_content_list_size,
            parts_walk(b@, start as int, 0, pn, n, w) == (match parts_walk(
                b@,
                off as int,
                i as int,
                pn,
                n,
                w,
            ) {
                Option::None => Option::None::<(Seq<PartView>, int)>,
                Option::Some((rest, fo)) => Option::Some((parts_view(parts@) + rest, fo)),
            }),
        decreases part_num - i,
    {
        let (p, off3) = match decode_walk_step(b, off, i, part_content_num, part_content_list_size)
        {
            Ok(v) => v,
            Err(_) => {
                return Err(StackError::OutOfBounds);
            },
        };
        let ghost pv = p@;
        parts.push(p);
        proof {
            assert(parts_walk(b@, off as int, i as int, pn, n, w) == (match parts_walk(
                b@,
                off3 as int,
                i + 1,
                pn,
                n,
                w,
            ) {
                Option::None => Option::None::<(Seq<PartView>, int)>,
                Option::Some((rest, fo)) => Option::Some((seq![pv] + rest, fo)),
            }));
            match parts_walk(b@, off3 as int, i + 1, pn, n, w) {
                Option::None => {},
                Option::Some((rest, fo)) => {
                    assert(parts_view(parts@) + rest =~= parts_view(
                        parts@.subrange(0, parts@.len() - 1),
                    ) + (seq![pv] + rest));
                    assert(parts_view(parts@.subrange(0, parts@.len() - 1)) =~= Seq::new(
                        (parts@.len() - 1) as nat,
                        |k: int| parts@[k]@,
                    ));
                },
            }
        }
        off = off3;
        i = i + 1;
    }
    proof {
        let ghost empty: Seq<PartView> = Seq::empty();
        assert(parts_walk(b@, off as int, i as int, pn, n, w) == Option::Some((empty, off as int)));
        assert(parts_view(parts@) + empty =~= parts_view(parts@));
    }
    if off >= b.len() as u64 {
        return Err(StackError::OutOfBounds);
    }
    let (name, z1) = match scan_cstring(b, off as usize) {
        Ok(v) => v,
        Err(e) => {
            return Err(e);
        },
    };
    let (script, _z2) = match scan_cstring(b, z1 + 1) {
        Ok(v) => v,
        Err(e) => {
            return Err(e);
        },
    };
    Ok((parts, name, script))
}

/// A card: one page of a stack.
#[derive(Debug)]
pub struct Card {
    pub id: u32,
    pub bitmap_block_id: u32,
    pub flags: u16,
    pub parts: Vec<Part>,
    pub name: String,
    pub script: String,
}

/// The mathematical value of a [`Card`].
pub ghost struct CardView {
    pub id: u32,
    pub bitmap_block_id: u32,
    pub flags: u16,
    pub parts: Seq<PartView>,
    pub name: Seq<char>,
    pub script: Seq<char>,
}

impl View for Card {
    type V = CardView;

    open spec fn view(&self) -> CardView {
        CardView {
            id: self.id,
            bitmap_block_id: self.bitmap_block_id,
            flags: self.flags,
            parts: parts_view(self.parts@),
            name: self.name@,
            script: self.script@,
        }
    }
}

impl Clone for Card {
    /// A clone denotes the same card.
    fn clone(&self) -> (r: Self)
        ensures
            r@ == self@,
    {
        let r = Card {
            id: self.id,
            bitmap_block_id: self.bitmap_block_id,
            flags: self.flags,
            parts: clone_parts(&self.parts),
            name: self.name.clone(),
            script: self.script.clone(),
        };
        proof {
            assert(r@.parts =~= self@.parts);
        }
        r
    }
}

/// The decoded value of the card block `b`, or `None` when a read would
/// leave the block.
pub open spec fn card_from_spec(b: Seq<u8>) -> Option<CardView> {
    if b.len() < 54 {
        Option::None
    } else {
        match tail_spec(
            b,
            54,
            be_u16_at(b, 40),
            be_u16_at(b, 48) as u16,
            be_u32_at(b, 50) as u32,
        ) {
            Option::None => Option::None,
            Option::Some(t) => Option::Some(
                CardView {
                    id: be_u32_at(b, 8) as u32,
                    bitmap_block_id: be_u32_at(b, 16) as u32,
                    flags: be_u16_at(b, 20) as u16,
                    parts: t.0,
                    name: t.1,
                    script: t.2,
                },
            ),
        }
    }
}

impl Card {
    /// Decodes a card block.  The block length is bounded by the block size
    /// field of the file format, a `u32`.
    pub fn from(b: &[u8]) -> (r: Result<Card, StackError>)
        requires
            b@.len() < 0x100000000,
        ensures
            card_from_spec(b@) is None ==> r == Err::<Card, StackError>(StackError::OutOfBounds),
            card_from_spec(b@) matches Some(v) ==> (r matches Ok(c) && c@ == v),
    {
        if b.len() < 54 {
            return Err(StackError::OutOfBounds);
        }
        let id = crate::byte::u32_from_u8(slice_subrange(b, 8, 12));
        let bitmap_block_id = crate::byte::u32_from_u8(slice_subrange(b, 16, 20));
        let flags = crate::byte::u16_from_u8(slice_subrange(b, 20, 22));
        let part_num = crate::byte::u16_from_u8(slice_subrange(b, 40, 42));
        let part_content_num = crate::byte::u16_from_u8(slice_subrange(b, 48, 50));
        let part_content_list_size = crate::byte::u32_from_u8(slice_subrange(b, 50, 54));
        let (parts, name, script) = match decode_parts_tail(
            b,
            54,
            part_num,
            part_content_num,
            part_content_list_size,
        ) {
            Ok(v) => v,
            Err(e) => {
                return Err(e);
            },
        };
        Ok(Card { id, bitmap_block_id, flags, parts, name, script })
    }
}

} // verus!
