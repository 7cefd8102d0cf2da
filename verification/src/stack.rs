//! The stack engine: header parsing, master-index walking, block dispatch
//! and final assembly.
//!
//! A stack file opens with a STAK block whose header carries the format
//! code, four packed version words, window and screen rectangles and the
//! global script.  The master block's index lists every other block as a
//! 24-bit offset in 32-byte units plus an id byte; a zero offset marks a
//! free slot.  Each indexed block is decoded by its four-byte tag, failures
//! skipping the block, and the results are assembled into the stack's
//! cards, backgrounds, fonts and styles.

use vstd::prelude::*;

use std::collections::HashMap;

use crate::background::Background;
use crate::background::BackgroundView;
use crate::background::background_from_spec;
use crate::bitmap::Bitmap;
use crate::bitmap::BitmapView;
use crate::bitmap::bitmap_from_spec;
use crate::byte::be_u16_at;
use crate::byte::be_u24_at;
use crate::byte::be_u32_at;
use crate::card::Card;
use crate::card::CardView;
use crate::card::card_from_spec;
use crate::error::StackError;
use crate::part::Part;
use crate::part::PartView;
use crate::style::Style;
use crate::style::style_table_spec;
use crate::text::find_zero;
use crate::text::macroman_seq;
use crate::text::scan_cstring;
use vstd::slice::slice_subrange;

verus! {

broadcast use vstd::std_specs::hash::group_hash_axioms;

/// The stack format that a header code denotes.
#[derive(Debug, Clone, Copy, PartialEq, Eq, Structural)]
pub enum StackFormat {
    NotHyperCard,
    PreReleaseHyperCard1x,
    HyperCard1x,
    PreReleaseHyperCard2x,
    HyperCard2x,
    Unsupported,
}

/// The stack format denoted by a header format code.
pub open spec fn format_of(code: int) -> StackFormat {
    if code == 0 {
        StackFormat::NotHyperCard
    } else if 1 <= code <= 7 {
        StackFormat::PreReleaseHyperCard1x
    } else if code == 8 {
        StackFormat::HyperCard1x
    } else if code == 9 {
        StackFormat::PreReleaseHyperCard2x
    } else if code == 10 {
        StackFormat::HyperCard2x
    } else {
        StackFormat::Unsupported
    }
}

/// Maps a header format code to the stack format it denotes.
pub fn stack_format(code: u32) -> (r: StackFormat)
    ensures
        r == format_of(code as int),
{
    if code == 0 {
        StackFormat::NotHyperCard
    } else if code <= 7 {
        StackFormat::PreReleaseHyperCard1x
    } else if code == 8 {
        StackFormat::HyperCard1x
    } else if code == 9 {
        StackFormat::PreReleaseHyperCard2x
    } else if code == 10 {
        StackFormat::HyperCard2x
    } else {
        StackFormat::Unsupported
    }
}

/// Whether a version word marks a release or a numbered development build.
#[derive(Debug, Clone, Copy, PartialEq, Eq, Structural)]
pub enum HyperCardVersionStatus {
    Release,
    Development(u32),
}

/// The release state packed into a version word.
#[derive(Debug, Clone, Copy, PartialEq, Eq, Structural)]
pub enum HyperCardVersionState {
    Final,
    Beta,
    Alpha,
    Development,
    Unknown(i32),
}

/// The packed-BCD reading of one byte: each hex digit is taken as a
/// decimal digit.
pub open spec fn bcd_of(v: int) -> int {
    v / 16 * 10 + v % 16
}

/// A 32-bit packed version word: major, minor, state and status bytes.
#[derive(Debug, Clone, Copy, PartialEq, Eq, Structural)]
pub struct HypercardVersion(pub u32);

/// The state denoted by a version word's state byte.
pub open spec fn state_of(v: u32) -> HyperCardVersionState {
    let c = bcd_of(v as int / 0x100 % 0x100);
    if c == 80 {
        HyperCardVersionState::Final
    } else if c == 60 {
        HyperCardVersionState::Beta
    } else if c == 40 {
        HyperCardVersionState::Alpha
    } else if c == 20 {
        HyperCardVersionState::Development
    } else {
        HyperCardVersionState::Unknown(c as i32)
    }
}

/// The status denoted by a version word's status byte.
pub open spec fn status_of(v: u32) -> HyperCardVersionStatus {
    let c = bcd_of(v as int % 0x100);
    if c == 0 {
        HyperCardVersionStatus::Release
    } else {
        HyperCardVersionStatus::Development(c as u32)
    }
}

/// Reads one byte as packed BCD.
fn bcd_byte(v: u8) -> (r: u8)
    ensures
        r as int == bcd_of(v as int),
{
    v / 16 * 10 + v % 16
}

impl HypercardVersion {
    /// The raw version word.
    pub fn whole(&self) -> (r: u32)
        ensures
            r == self.0,
    {
        self.0
    }

    /// The major version: the packed-BCD reading of the top byte.
    pub fn major(&self) -> (r: u32)
        ensures
            r as int == bcd_of(self.0 as int / 0x1000000),
    {
        bcd_byte((self.0 / 0x1000000) as u8) as u32
    }

    /// The release state packed into the state byte.
    pub fn state(&self) -> (r: HyperCardVersionState)
        ensures
            r == state_of(self.0),
    {
        let c = bcd_byte((self.0 / 0x100 % 0x100) as u8);
        if c == 80 {
            HyperCardVersionState::Final
        } else if c == 60 {
            HyperCardVersionState::Beta
        } else if c == 40 {
            HyperCardVersionState::Alpha
        } else if c == 20 {
            HyperCardVersionState::Development
        } else {
            HyperCardVersionState::Unknown(c as i32)
        }
    }

    /// The release-or-development status packed into the status byte.
    pub fn version_status(&self) -> (r: HyperCardVersionStatus)
        ensures
            r == status_of(self.0),
    {
        let c = bcd_byte((self.0 % 0x100) as u8);
        if c == 0 {
            HyperCardVersionStatus::Release
        } else {
            HyperCardVersionStatus::Development(c as u32)
        }
    }
}

/// A font table entry.  The block dispatcher materialises no fonts, so a
/// stack's font list stays empty; the type completes the block variants.
#[derive(Debug, Clone)]
pub struct Font {
    pub id: u32,
    pub name: String,
}

/// The mathematical value of a [`Font`].
pub ghost struct FontView {
    pub id: u32,
    pub name: Seq<char>,
}

impl View for Font {
    type V = FontView;

    open spec fn view(&self) -> FontView {
        FontView { id: self.id, name: self.name@ }
    }
}

/// A decoded block of the stack file.
#[derive(Debug)]
pub enum Block {
    Background(Background),
    Bitmap(Bitmap),
    Card(Card),
    Font(Font),
    Part(Part),
    Style(HashMap<u32, Style>),
}

/// The mathematical value of a [`Block`].
pub ghost enum BlockView {
    Background(BackgroundView),
    Bitmap(BitmapView),
    Card(CardView),
    Font(FontView),
    Part(PartView),
    Style(Map<u32, Style>),
}

impl View for Block {
    type V = BlockView;

    open spec fn view(&self) -> BlockView {
        match self {
            Block::Background(b) => BlockView::Background(b@),
            Block::Bitmap(b) => BlockView::Bitmap(b@),
            Block::Card(c) => BlockView::Card(c@),
            Block::Font(f) => BlockView::Font(f@),
            Block::Part(p) => BlockView::Part(p@),
            Block::Style(s) => BlockView::Style(s@),
        }
    }
}

impl Block {
    /// True on a background block.
    pub fn is_background(&self) -> (r: bool)
        ensures
            r == (self@ is Background),
    {
        matches!(self, Block::Background(_))
    }

    /// True on a bitmap block.
    pub fn is_bitmap(&self) -> (r: bool)
        ensures
            r == (self@ is Bitmap),
    {
        matches!(self, Block::Bitmap(_))
    }

    /// True on a card block.
    pub fn is_card(&self) -> (r: bool)
        ensures
            r == (self@ is Card),
    {
        matches!(self, Block::Card(_))
    }

    /// True on a font block.
    pub fn is_font(&self) -> (r: bool)
        ensures
            r == (self@ is Font),
    {
        matches!(self, Block::Font(_))
    }

    /// True on a part block.
    pub fn is_part(&self) -> (r: bool)
        ensures
            r == (self@ is Part),
    {
        matches!(self, Block::Part(_))
    }

    /// True on a style-table block.
    pub fn is_style(&self) -> (r: bool)
        ensures
            r == (self@ is Style),
    {
        matches!(self, Block::Style(_))
    }

    /// The background a background block holds.
    pub fn get_background(&self) -> (r: Background)
        requires
            self@ is Background,
        ensures
            r@ == self@->Background_0,
    {
        match self {
            Block::Background(b) => b.clone(),
            _ => vstd::pervasive::unreached(),
        }
    }

    /// The bitmap a bitmap block holds.
    pub fn get_bitmap(&self) -> (r: Bitmap)
        requires
            self@ is Bitmap,
        ensures
            r@ == self@->Bitmap_0,
    {
        match self {
            Block::Bitmap(b) => b.clone(),
            _ => vstd::pervasive::unreached(),
        }
    }

    /// The card a card block holds.
    pub fn get_card(&self) -> (r: Card)
        requires
            self@ is Card,
        ensures
            r@ == self@->Card_0,
    {
        match self {
            Block::Card(c) => c.clone(),
            _ => vstd::pervasive::unreached(),
        }
    }

    /// The font a font block holds.
    pub fn get_font(&self) -> (r: Font)
        requires
            self@ is Font,
        ensures
            r@ == self@->Font_0,
    {
        match self {
            Block::Font(f) => Font { id: f.id, name: f.name.clone() },
            _ => vstd::pervasive::unreached(),
        }
    }

    /// The part a part block holds.
    pub fn get_part(&self) -> (r: Part)
        requires
            self@ is Part,
        ensures
            r@ == self@->Part_0,
    {
        match self {
            Block::Part(p) => p.clone(),
            _ => vstd::pervasive::unreached(),
        }
    }

    /// The style table a style-table block holds.
    pub fn get_style(&self) -> (r: HashMap<u32, Style>)
        requires
            self@ is Style,
        ensures
            r@ == self@->Style_0,
    {
        match self {
            Block::Style(s) => s.clone(),
            _ => vstd::pervasive::unreached(),
        }
    }
}

/// The surviving entries of the first `n` master-index slots of `b` at
/// `off`, in slot order: each slot is a 24-bit offset in 32-byte units and
/// an id byte, and a zero offset marks a free slot.
pub open spec fn master_slots(b: Seq<u8>, off: int, n: int) -> Seq<(u8, u32)>
    decreases n,
{
    if n <= 0 {
        Seq::empty()
    } else {
        let rest = master_slots(b, off, n - 1);
        let loc = be_u24_at(b, off + 4 * (n - 1)) * 32;
        if loc == 0 {
            rest
        } else {
            rest + seq![(b[off + 4 * (n - 1) + 3], loc as u32)]
        }
    }
}

/// Reads the master index: the first `block_size / 8` four-byte slots of
/// the table at `off`, skipping free slots.
pub fn read_master_index(b: &[u8], off: u64, block_size: u32) -> (r: Result<
    Vec<(u8, u32)>,
    StackError,
>)
    requires
        b@.len() < 0x100000000,
        off < 0x100000000,
    ensures
        off + block_size as int / 2 > b@.len() ==> r == Err::<Vec<(u8, u32)>, StackError>(
            StackError::OutOfBounds,
        ),
        off + block_size as int / 2 <= b@.len() ==> (r matches Ok(v) && v@ == master_slots(
            b@,
            off as int,
            block_size as int / 8,
        )),
{
    if off + (block_size as u64) / 2 > b.len() as u64 {
        return Err(StackError::OutOfBounds);
    }
    let n: u32 = block_size / 8;
    let mut out: Vec<(u8, u32)> = Vec::new();
    let mut k: u32 = 0;
    while k < n
        invariant
            b@.len() < 0x100000000,
            off < 0x100000000,
            off + block_size as int / 2 <= b@.len(),
            n == block_size as int / 8,
            k <= n,
            out@ == master_slots(b@, off as int, k as int),
        decreases n - k,
    {
        proof {
            assert(4 * (block_size as int / 8) <= block_size as int / 2) by (nonlinear_arith);
            assert(4 * (k as int) + 4 <= 4 * (block_size as int / 8)) by (nonlinear_arith)
                requires
                    k < block_size as int / 8,
            ;
        }
        let slot = (off + 4 * (k as u64)) as usize;
        let loc = crate::byte::u24_from_u8(slice_subrange(b, slot, slot + 3)) * 32;
        let id = b[slot + 3];
        if loc != 0 {
            out.push((id, loc));
            proof {
                assert(out@ =~= master_slots(b@, off as int, k + 1));
            }
        }
        k = k + 1;
    }
    Ok(out)
}

/// Law: a master index whose slots all store a zero offset yields no
/// entries, so the stack's object map stays empty.
pub proof fn lemma_master_index_all_free(b: Seq<u8>, off: int, n: int)
    requires
        forall|k: int| 0 <= k < n ==> #[trigger] be_u24_at(b, off + 4 * k) == 0,
    ensures
        master_slots(b, off, n) == Seq::<(u8, u32)>::empty(),
    decreases n,
{
    if n > 0 {
        lemma_master_index_all_free(b, off, n - 1);
    }
}

/// The block value that a tagged chunk dispatches to, or `None` when the
/// tag is set aside or its decoder fails.
pub open spec fn dispatch_spec(tag: Seq<u8>, chunk: Seq<u8>) -> Option<(u32, BlockView)> {
    if chunk.len() < 12 {
        Option::None
    } else {
        let block_id = be_u32_at(chunk, 8) as u32;
        if tag == seq![0x42u8, 0x4Du8, 0x41u8, 0x50u8] {
            match bitmap_from_spec(chunk) {
                Option::Some(v) => Option::Some((block_id, BlockView::Bitmap(v))),
                Option::None => Option::None,
            }
        } else if tag == seq![0x43u8, 0x41u8, 0x52u8, 0x44u8] {
            match card_from_spec(chunk) {
                Option::Some(v) => Option::Some((block_id, BlockView::Card(v))),
                Option::None => Option::None,
            }
        } else if tag == seq![0x53u8, 0x54u8, 0x42u8, 0x4Cu8] {
            match style_table_spec(chunk) {
                Option::Some(v) => Option::Some((block_id, BlockView::Style(v))),
                Option::None => Option::None,
            }
        } else if tag == seq![0x42u8, 0x4Bu8, 0x47u8, 0x44u8] {
            match background_from_spec(chunk) {
                Option::Some(v) => Option::Some((block_id, BlockView::Background(v))),
                Option::None => Option::None,
            }
        } else {
            // LIST and PAGE are redundant edit-time indexes; unknown tags
            // are skipped.
            Option::None
        }
    }
}

/// Dispatches one indexed block by its four-byte tag.  A failed decoder
/// skips the block rather than aborting the parse.
pub fn stack_parse(location: u32, id: u8, tag: &[u8], chunk: &[u8]) -> (r: Option<(u32, Block)>)
    requires
        chunk@.len() < 0x100000000,
    ensures
        dispatch_spec(tag@, chunk@) is None ==> r is None,
        dispatch_spec(tag@, chunk@) matches Some(v) ==> (r matches Some(p) && p.0 == v.0 && p.1@
            == v.1),
{
    if chunk.len() < 12 {
        return None;
    }
    let block_id = crate::byte::u32_from_u8(slice_subrange(chunk, 8, 12));
    if tag.len() != 4 {
        proof {
            assert(tag@ != seq![0x42u8, 0x4Du8, 0x41u8, 0x50u8]);
            assert(tag@ != seq![0x43u8, 0x41u8, 0x52u8, 0x44u8]);
            assert(tag@ != seq![0x53u8, 0x54u8, 0x42u8, 0x4Cu8]);
            assert(tag@ != seq![0x42u8, 0x4Bu8, 0x47u8, 0x44u8]);
        }
        return None;
    }
    let t0 = tag[0];
    let t1 = tag[1];
    let t2 = tag[2];
    let t3 = tag[3];
    if t0 == 0x42u8 && t1 == 0x4Du8 && t2 == 0x41u8 && t3 == 0x50u8 {
        proof {
            assert(tag@ =~= seq![0x42u8, 0x4Du8, 0x41u8, 0x50u8]);
        }
        match Bitmap::from(chunk) {
            Ok(v) => Some((block_id, Block::Bitmap(v))),
            Err(_) => None,
        }
    } else if t0 == 0x43u8 && t1 == 0x41u8 && t2 == 0x52u8 && t3 == 0x44u8 {
        proof {
            assert(tag@ =~= seq![0x43u8, 0x41u8, 0x52u8, 0x44u8]);
            assert(tag@ != seq![0x42u8, 0x4Du8, 0x41u8, 0x50u8]);
        }
        match Card::from(chunk) {
            Ok(v) => Some((block_id, Block::Card(v))),
            Err(_) => None,
        }
    } else if t0 == 0x53u8 && t1 == 0x54u8 && t2 == 0x42u8 && t3 == 0x4Cu8 {
        proof {
            assert(tag@ =~= seq![0x53u8, 0x54u8, 0x42u8, 0x4Cu8]);
            assert(tag@ != seq![0x42u8, 0x4Du8, 0x41u8, 0x50u8]);
            assert(tag@ != seq![0x43u8, 0x41u8, 0x52u8, 0x44u8]);
        }
        match Style::vec_from(chunk) {
            Ok(v) => Some((block_id, Block::Style(v))),
            Err(_) => None,
        }
    } else if t0 == 0x42u8 && t1 == 0x4Bu8 && t2 == 0x47u8 && t3 == 0x44u8 {
        proof {
            assert(tag@ =~= seq![0x42u8, 0x4Bu8, 0x47u8, 0x44u8]);
            assert(tag@ != seq![0x42u8, 0x4Du8, 0x41u8, 0x50u8]);
            assert(tag@ != seq![0x43u8, 0x41u8, 0x52u8, 0x44u8]);
            assert(tag@ != seq![0x53u8, 0x54u8, 0x42u8, 0x4Cu8]);
        }
        match Background::from(chunk) {
            Ok(v) => Some((block_id, Block::Background(v))),
            Err(_) => None,
        }
    } else {
        proof {
            assert(tag@ != seq![0x42u8, 0x4Du8, 0x41u8, 0x50u8]);
            assert(tag@ != seq![0x43u8, 0x41u8, 0x52u8, 0x44u8]);
            assert(tag@ != seq![0x53u8, 0x54u8, 0x42u8, 0x4Cu8]);
            assert(tag@ != seq![0x42u8, 0x4Bu8, 0x47u8, 0x44u8]);
        }
        None
    }
}

} // verus!

verus! {

/// The views of an object list.
pub open spec fn objects_view(v: Seq<(u32, Block)>) -> Seq<(u32, BlockView)> {
    Seq::new(v.len(), |k: int| (v[k].0, v[k].1@))
}

/// The backgrounds of an object list, in order.
pub open spec fn bg_list(objs: Seq<(u32, BlockView)>) -> Seq<BackgroundView>
    decreases objs.len(),
{
    if objs.len() == 0 {
        Seq::empty()
    } else {
        let last = objs[objs.len() - 1];
        bg_list(objs.drop_last()) + (if last.1 is Background {
            seq![last.1->Background_0]
        } else {
            Seq::empty()
        })
    }
}

/// The last background of an object list stored under `id`.
pub open spec fn bg_first(objs: Seq<(u32, BlockView)>, id: u32) -> Option<BackgroundView>
    decreases objs.len(),
{
    if objs.len() == 0 {
        Option::None
    } else {
        let last = objs[objs.len() - 1];
        if last.1 is Background && last.0 == id {
            Option::Some(last.1->Background_0)
        } else {
            bg_first(objs.drop_last(), id)
        }
    }
}

/// The cards of an object list, in order.
pub open spec fn card_list(objs: Seq<(u32, BlockView)>) -> Seq<CardView>
    decreases objs.len(),
{
    if objs.len() == 0 {
        Seq::empty()
    } else {
        let last = objs[objs.len() - 1];
        card_list(objs.drop_last()) + (if last.1 is Card {
            seq![last.1->Card_0]
        } else {
            Seq::empty()
        })
    }
}

/// The last card of an object list stored under `id`.
pub open spec fn card_first(objs: Seq<(u32, BlockView)>, id: u32) -> Option<CardView>
    decreases objs.len(),
{
    if objs.len() == 0 {
        Option::None
    } else {
        let last = objs[objs.len() - 1];
        if last.1 is Card && last.0 == id {
            Option::Some(last.1->Card_0)
        } else {
            card_first(objs.drop_last(), id)
        }
    }
}

/// The fonts of an object list, in order.
pub open spec fn font_list(objs: Seq<(u32, BlockView)>) -> Seq<FontView>
    decreases objs.len(),
{
    if objs.len() == 0 {
        Seq::empty()
    } else {
        let last = objs[objs.len() - 1];
        font_list(objs.drop_last()) + (if last.1 is Font {
            seq![last.1->Font_0]
        } else {
            Seq::empty()
        })
    }
}

/// The first style table of an object list.
pub open spec fn style_find(objs: Seq<(u32, BlockView)>) -> Option<Map<u32, Style>>
    decreases objs.len(),
{
    if objs.len() == 0 {
        Option::None
    } else {
        let prev = style_find(objs.drop_last());
        if prev is Some {
            prev
        } else {
            let last = objs[objs.len() - 1];
            if last.1 is Style {
                Option::Some(last.1->Style_0)
            } else {
                Option::None
            }
        }
    }
}

/// Collects the backgrounds of the object list, and the last one stored
/// under `first_background_id`.
pub fn filter_backgrounds(objects: &Vec<(u32, Block)>, first_background_id: u32) -> (r: (
    Option<Background>,
    Vec<Background>,
))
    ensures
        ({
            let objs = objects_view(objects@);
            &&& (match r.0 {
                Option::Some(fb) => bg_first(objs, first_background_id) == Option::Some(fb@),
                Option::None => bg_first(objs, first_background_id) is None,
            })
            &&& Seq::new(r.1@.len(), |k: int| r.1@[k]@) == bg_list(objs)
        }),
{
    let ghost objs = objects_view(objects@);
    let mut first: Option<Background> = None;
    let mut list: Vec<Background> = Vec::new();
    let mut i: usize = 0;
    while i < objects.len()
        invariant
            i <= objects@.len(),
            objs == objects_view(objects@),
            (match first {
                Option::Some(fb) => bg_first(objs.take(i as int), first_background_id)
                    == Option::Some(fb@),
                Option::None => bg_first(objs.take(i as int), first_background_id) is None,
            }),
            Seq::new(list@.len(), |k: int| list@[k]@) == bg_list(objs.take(i as int)),
        decreases objects@.len() - i,
    {
        let ghost pre = objs.take(i as int);
        if objects[i].1.is_background() {
            let b = objects[i].1.get_background();
            if objects[i].0 == first_background_id {
                first = Some(objects[i].1.get_background());
            }
            list.push(b);
        }
        proof {
            assert(objs.take(i + 1).drop_last() =~= pre);
            assert(objs.take(i + 1)[i as int] == objs[i as int]);
            assert(Seq::new(list@.len(), |k: int| list@[k]@) =~= bg_list(objs.take(i + 1)));
        }
        i = i + 1;
    }
    proof {
        assert(objs.take(objects@.len() as int) =~= objs);
    }
    (first, list)
}

/// Collects the cards of the object list, and the last one stored under
/// `first_card_id`.
pub fn filter_cards(objects: &Vec<(u32, Block)>, first_card_id: u32) -> (r: (
    Option<Card>,
    Vec<Card>,
))
    ensures
        ({
            let objs = objects_view(objects@);
            &&& (match r.0 {
                Option::Some(fc) => card_first(objs, first_card_id) == Option::Some(fc@),
                Option::None => card_first(objs, first_card_id) is None,
            })
            &&& Seq::new(r.1@.len(), |k: int| r.1@[k]@) == card_list(objs)
        }),
{
    let ghost objs = objects_view(objects@);
    let mut first: Option<Card> = None;
    let mut list: Vec<Card> = Vec::new();
    let mut i: usize = 0;
    while i < objects.len()
        invariant
            i <= objects@.len(),
            objs == objects_view(objects@),
            (match first {
                Option::Some(fc) => card_first(objs.take(i as int), first_card_id)
                    == Option::Some(fc@),
                Option::None => card_first(objs.take(i as int), first_card_id) is None,
            }),
            Seq::new(list@.len(), |k: int| list@[k]@) == card_list(objs.take(i as int)),
        decreases objects@.len() - i,
    {
        let ghost pre = objs.take(i as int);
        if objects[i].1.is_card() {
            let c = objects[i].1.get_card();
            if objects[i].0 == first_card_id {
                first = Some(objects[i].1.get_card());
            }
            list.push(c);
        }
        proof {
            assert(objs.take(i + 1).drop_last() =~= pre);
            assert(objs.take(i + 1)[i as int] == objs[i as int]);
            assert(Seq::new(list@.len(), |k: int| list@[k]@) =~= card_list(objs.take(i + 1)));
        }
        i = i + 1;
    }
    proof {
        assert(objs.take(objects@.len() as int) =~= objs);
    }
    (first, list)
}

/// Collects the fonts of the object list.
pub fn filter_fonts(objects: &Vec<(u32, Block)>) -> (r: Vec<Font>)
    ensures
        Seq::new(r@.len(), |k: int| r@[k]@) == font_list(objects_view(objects@)),
{
    let ghost objs = objects_view(objects@);
    let mut list: Vec<Font> = Vec::new();
    let mut i: usize = 0;
    while i < objects.len()
        invariant
            i <= objects@.len(),
            objs == objects_view(objects@),
            Seq::new(list@.len(), |k: int| list@[k]@) == font_list(objs.take(i as int)),
        decreases objects@.len() - i,
    {
        let ghost pre = objs.take(i as int);
        if objects[i].1.is_font() {
            let f = objects[i].1.get_font();
            list.push(f);
        }
        proof {
            assert(objs.take(i + 1).drop_last() =~= pre);
            assert(objs.take(i + 1)[i as int] == objs[i as int]);
            assert(Seq::new(list@.len(), |k: int| list@[k]@) =~= font_list(objs.take(i + 1)));
        }
        i = i + 1;
    }
    proof {
        assert(objs.take(objects@.len() as int) =~= objs);
    }
    list
}

/// The first style table of the object list, if any.
pub fn filter_styles(objects: &Vec<(u32, Block)>) -> (r: Option<HashMap<u32, Style>>)
    ensures
        (match r {
            Option::Some(m) => style_find(objects_view(objects@)) == Option::Some(m@),
            Option::None => style_find(objects_view(objects@)) is None,
        }),
{
    let ghost objs = objects_view(objects@);
    let mut found: Option<HashMap<u32, Style>> = None;
    let mut i: usize = 0;
    while i < objects.len()
        invariant
            i <= objects@.len(),
            objs == objects_view(objects@),
            (match found {
                Option::Some(m) => style_find(objs.take(i as int)) == Option::Some(m@),
                Option::None => style_find(objs.take(i as int)) is None,
            }),
        decreases objects@.len() - i,
    {
        let ghost pre = objs.take(i as int);
        if found.is_none() && objects[i].1.is_style() {
            found = Some(objects[i].1.get_style());
        }
        proof {
            assert(objs.take(i + 1).drop_last() =~= pre);
            assert(objs.take(i + 1)[i as int] == objs[i as int]);
        }
        i = i + 1;
    }
    proof {
        assert(objs.take(objects@.len() as int) =~= objs);
    }
    found
}

} // verus!

verus! {

/// The block that one master-index entry at `loc` yields: its tag is read
/// from its generic header, its chunk spans its declared size, and any
/// out-of-range read skips the block.
pub open spec fn slot_block(b: Seq<u8>, loc: int) -> Option<(u32, BlockView)> {
    if loc + 8 > b.len() {
        Option::None
    } else {
        let bs = be_u32_at(b, loc);
        if loc + bs > b.len() {
            Option::None
        } else {
            dispatch_spec(b.subrange(loc + 4, loc + 8), b.subrange(loc, loc + bs))
        }
    }
}

/// The object list built from the first `n` surviving master-index
/// entries, in slot order.
pub open spec fn objects_spec(b: Seq<u8>, slots: Seq<(u8, u32)>, n: int) -> Seq<(u32, BlockView)>
    decreases n,
{
    if n <= 0 {
        Seq::empty()
    } else {
        objects_spec(b, slots, n - 1) + (match slot_block(b, slots[n - 1].1 as int) {
            Option::None => Seq::empty(),
            Option::Some(p) => seq![p],
        })
    }
}

/// How a parse fails.
pub ghost enum StackErrKind {
    /// The file is not a stack: missing magic, too short, or an expected
    /// entry cannot be resolved.
    BadFile,
    /// A structural read left the buffer.
    Oob,
    /// No style table was found.
    NoStyles,
}

/// True when the error value reports the error kind.
pub open spec fn err_matches(k: StackErrKind, e: StackError) -> bool {
    match k {
        StackErrKind::BadFile => e is InvalidFile,
        StackErrKind::Oob => e == StackError::OutOfBounds,
        StackErrKind::NoStyles => e == StackError::MissingStyleTable,
    }
}

/// The mathematical value of a [`Stack`].
pub ghost struct StackView {
    pub format: StackFormat,
    pub backgrounds: Seq<BackgroundView>,
    pub first_background: BackgroundView,
    pub objects: Seq<(u32, BlockView)>,
    pub cards: Seq<CardView>,
    pub first_card: CardView,
    pub version: (u32, u32, u32, u32),
    pub card_window_coords: (u16, u16, u16, u16),
    pub screen_coords: (u16, u16, u16, u16),
    pub coords: (u16, u16),
    pub fonts: Seq<FontView>,
    pub styles: Map<u32, Style>,
    pub size: (u16, u16),
    pub script: Seq<char>,
}

/// The decoded value of a whole stack file, or how its parse fails.
pub open spec fn stack_from_spec(b: Seq<u8>) -> Result<StackView, StackErrKind> {
    if b.len() < 8 {
        Result::Err(StackErrKind::BadFile)
    } else if b.subrange(4, 8) != seq![0x53u8, 0x54u8, 0x41u8, 0x4Bu8] {
        Result::Err(StackErrKind::BadFile)
    } else if b.len() < 444 {
        Result::Err(StackErrKind::Oob)
    } else {
        let z = find_zero(b, 0x600);
        if z < 0 {
            Result::Err(StackErrKind::Oob)
        } else {
            let m = z - z % 0x200 + 0x200;
            if m + 8 > b.len() {
                Result::Err(StackErrKind::Oob)
            } else {
                let bs = be_u32_at(b, m);
                if m + 0x20 + bs / 2 > b.len() {
                    Result::Err(StackErrKind::Oob)
                } else {
                    let slots = master_slots(b, m + 0x20, bs / 8);
                    let objs = objects_spec(b, slots, slots.len() as int);
                    match style_find(objs) {
                        Option::None => Result::Err(StackErrKind::NoStyles),
                        Option::Some(styles) => match bg_first(objs, be_u32_at(b, 40) as u32) {
                            Option::None => Result::Err(StackErrKind::BadFile),
                            Option::Some(fb) => match card_first(objs, be_u32_at(b, 48) as u32) {
                                Option::None => Result::Err(StackErrKind::BadFile),
                                Option::Some(fc) => Result::Ok(
                                    StackView {
                                        format: format_of(be_u32_at(b, 16)),
                                        backgrounds: bg_list(objs),
                                        first_background: fb,
                                        objects: objs,
                                        cards: card_list(objs),
                                        first_card: fc,
                                        version: (
                                            be_u32_at(b, 96) as u32,
                                            be_u32_at(b, 100) as u32,
                                            be_u32_at(b, 104) as u32,
                                            be_u32_at(b, 108) as u32,
                                        ),
                                        card_window_coords: (
                                            be_u16_at(b, 120) as u16,
                                            be_u16_at(b, 122) as u16,
                                            be_u16_at(b, 124) as u16,
                                            be_u16_at(b, 126) as u16,
                                        ),
                                        screen_coords: (
                                            be_u16_at(b, 128) as u16,
                                            be_u16_at(b, 130) as u16,
                                            be_u16_at(b, 132) as u16,
                                            be_u16_at(b, 134) as u16,
                                        ),
                                        coords: (be_u16_at(b, 136) as u16, be_u16_at(b, 138) as u16),
                                        fonts: font_list(objs),
                                        styles: styles,
                                        size: (be_u16_at(b, 442) as u16, be_u16_at(b, 440) as u16),
                                        script: macroman_seq(b.subrange(0x600, z)),
                                    },
                                ),
                            },
                        },
                    }
                }
            }
        }
    }
}

/// Law: a buffer shorter than eight bytes, or whose bytes 4..8 are not the
/// stack magic, is rejected as an invalid file.
pub proof fn lemma_header_rejection(b: Seq<u8>)
    requires
        b.len() < 8 || b.subrange(4, 8) != seq![0x53u8, 0x54u8, 0x41u8, 0x4Bu8],
    ensures
        stack_from_spec(b) == Result::<StackView, StackErrKind>::Err(StackErrKind::BadFile),
{
}

/// A decoded stack: the root aggregate of the file.
#[derive(Debug)]
pub struct Stack {
    pub format: StackFormat,
    pub backgrounds: Vec<Background>,
    pub first_background: Background,
    pub objects: Vec<(u32, Block)>,
    pub cards: Vec<Card>,
    pub first_card: Card,
    /// In order of appearance in the file: at creation, at last
    /// compacting, at last modification since last compacting, at last
    /// modification.
    pub version: (HypercardVersion, HypercardVersion, HypercardVersion, HypercardVersion),
    /// (top, left, bottom, right)
    pub card_window_coords: (u16, u16, u16, u16),
    /// (top, left, bottom, right)
    pub screen_coords: (u16, u16, u16, u16),
    /// (x, y)
    pub coords: (u16, u16),
    pub fonts: Vec<Font>,
    pub styles: HashMap<u32, Style>,
    /// (width, height)
    pub size: (u16, u16),
    pub script: String,
}

impl View for Stack {
    type V = StackView;

    open spec fn view(&self) -> StackView {
        StackView {
            format: self.format,
            backgrounds: Seq::new(self.backgrounds@.len(), |k: int| self.backgrounds@[k]@),
            first_background: self.first_background@,
            objects: objects_view(self.objects@),
            cards: Seq::new(self.cards@.len(), |k: int| self.cards@[k]@),
            first_card: self.first_card@,
            version: (self.version.0.0, self.version.1.0, self.version.2.0, self.version.3.0),
            card_window_coords: self.card_window_coords,
            screen_coords: self.screen_coords,
            coords: self.coords,
            fonts: Seq::new(self.fonts@.len(), |k: int| self.fonts@[k]@),
            styles: self.styles@,
            size: self.size,
            script: self.script@,
        }
    }
}

impl Stack {
    /// Parses a whole stack file: the header, the master index, every
    /// indexed block, and the assembled cards, backgrounds, fonts and
    /// styles.  A file whose magic or required entries are missing is
    /// rejected with `InvalidFile`; a structural read past the end of the
    /// buffer fails with `OutOfBounds`; a stack without a style table
    /// fails with `MissingStyleTable`.  The file length is bounded by the
    /// format's 32-bit sizes.
    #[verifier::rlimit(100)]
    pub fn from(bytes: &[u8]) -> (r: Result<Stack, StackError>)
        requires
            bytes@.len() < 0x100000000,
        ensures
            stack_from_spec(bytes@) matches Err(k) ==> (r matches Err(e) && err_matches(k, e)),
            stack_from_spec(bytes@) matches Ok(v) ==> (r matches Ok(st) && st@ == v),
    {
        if bytes.len() < 8 {
            return Err(
                StackError::InvalidFile(not_a_stack_reason()),
            );
        }
        if !(bytes[4] == 0x53 && bytes[5] == 0x54 && bytes[6] == 0x41 && bytes[7] == 0x4B) {
            proof {
                assert(bytes@.subrange(4, 8) != seq![0x53u8, 0x54u8, 0x41u8, 0x4Bu8]);
            }
            return Err(StackError::InvalidFile(not_a_stack_reason()));
        }
        proof {
            assert(bytes@.subrange(4, 8) =~= seq![0x53u8, 0x54u8, 0x41u8, 0x4Bu8]);
        }
        if bytes.len() < 444 {
            return Err(StackError::OutOfBounds);
        }
        let h = read_fixed_header(bytes);
        let format = stack_format(h.format_raw);
        let first_background_id = h.first_background_id;
        let first_card_id = h.first_card_id;
        let version = h.version;
        let card_window_coords = h.card_window_coords;
        let screen_coords = h.screen_coords;
        let coords = h.coords;
        let size = h.size;
        // The global script starts at 0x600, null-terminated.
        let (script, z) = match scan_cstring(bytes, 0x600) {
            Ok(v) => v,
            Err(_) => {
                return Err(StackError::OutOfBounds);
            },
        };
        // Round up to the next 0x200 boundary: the master block follows.
        let m64: u64 = (z as u64) - (z as u64) % 0x200 + 0x200;
        if m64 + 8 > bytes.len() as u64 {
            return Err(StackError::OutOfBounds);
        }
        let m = m64 as usize;
        let block_size = crate::byte::u32_from_u8(slice_subrange(bytes, m, m + 4));
        if m64 + 0x20 + (block_size as u64) / 2 > bytes.len() as u64 {
            return Err(StackError::OutOfBounds);
        }
        let slots = match read_master_index(bytes, m64 + 0x20, block_size) {
            Ok(v) => v,
            Err(_) => {
                return Err(StackError::OutOfBounds);
            },
        };
        // Decode every surviving entry, in slot order.
        let ghost slots_v = slots@;
        let mut objects: Vec<(u32, Block)> = Vec::new();
        let mut i: usize = 0;
        while i < slots.len()
            invariant
                bytes@.len() < 0x100000000,
                slots_v == slots@,
                i <= slots@.len(),
                objects_view(objects@) == objects_spec(bytes@, slots_v, i as int),
            decreases slots@.len() - i,
        {
            let (id, loc) = slots[i];
            let loc64 = loc as u64;
            if loc64 + 8 <= bytes.len() as u64 {
                let locu = loc as usize;
                let bs2 = crate::byte::u32_from_u8(slice_subrange(bytes, locu, locu + 4));
                if loc64 + (bs2 as u64) <= bytes.len() as u64 {
                    let tag = slice_subrange(bytes, locu + 4, locu + 8);
                    let chunk = slice_subrange(bytes, locu, locu + (bs2 as usize));
                    match stack_parse(loc, id, tag, chunk) {
                        Option::Some(p) => {
                            objects.push(p);
                            proof {
                                assert(objects_view(objects@) =~= objects_spec(
                                    bytes@,
                                    slots_v,
                                    i + 1,
                                ));
                            }
                        },
                        Option::None => {
                            proof {
                                assert(objects_view(objects@) =~= objects_spec(
                                    bytes@,
                                    slots_v,
                                    i + 1,
                                ));
                            }
                        },
                    }
                } else {
                    proof {
                        assert(objects_view(objects@) =~= objects_spec(bytes@, slots_v, i + 1));
                    }
                }
            } else {
                proof {
                    assert(objects_view(objects@) =~= objects_spec(bytes@, slots_v, i + 1));
                }
            }
            i = i + 1;
        }
        proof {
            assert(objects_spec(bytes@, slots_v, slots_v.len() as int) == objects_view(objects@));
        }
        // Final assembly.
        assemble(format, h, script, objects)
    }
}

/// Assembles the decoded object list into a stack: styles, backgrounds,
/// cards and fonts, with the first card and background resolved by id.
fn assemble(format: StackFormat, h: FixedHeader, script: String, objects: Vec<(u32, Block)>) -> (r:
    Result<Stack, StackError>)
    ensures
        ({
            let objs = objects_view(objects@);
            &&& (style_find(objs) is None ==> r == Err::<Stack, StackError>(
                StackError::MissingStyleTable,
            ))
            &&& (style_find(objs) is Some && bg_first(objs, h.first_background_id) is None ==> (
            r matches Err(e) && e is InvalidFile))
            &&& (style_find(objs) is Some && bg_first(objs, h.first_background_id) is Some
                && card_first(objs, h.first_card_id) is None ==> (r matches Err(e)
                && e is InvalidFile))
            &&& (style_find(objs) is Some && bg_first(objs, h.first_background_id) is Some
                && card_first(objs, h.first_card_id) is Some ==> (r matches Ok(st) && st@
                == StackView {
                format: format,
                backgrounds: bg_list(objs),
                first_background: bg_first(objs, h.first_background_id)->Some_0,
                objects: objs,
                cards: card_list(objs),
                first_card: card_first(objs, h.first_card_id)->Some_0,
                version: (h.version.0.0, h.version.1.0, h.version.2.0, h.version.3.0),
                card_window_coords: h.card_window_coords,
                screen_coords: h.screen_coords,
                coords: h.coords,
                fonts: font_list(objs),
                styles: style_find(objs)->Some_0,
                size: h.size,
                script: script@,
            }))
        }),
{
    let styles = match filter_styles(&objects) {
        Option::Some(m) => m,
        Option::None => {
            return Err(StackError::MissingStyleTable);
        },
    };
    let (first_background, backgrounds) = filter_backgrounds(&objects, h.first_background_id);
    let first_background = match first_background {
        Option::Some(b) => b,
        Option::None => {
            return Err(StackError::InvalidFile(missing_first_reason()));
        },
    };
    let (first_card, cards) = filter_cards(&objects, h.first_card_id);
    let first_card = match first_card {
        Option::Some(c) => c,
        Option::None => {
            return Err(StackError::InvalidFile(missing_first_reason()));
        },
    };
    let fonts = filter_fonts(&objects);
    let ghost objs = objects_view(objects@);
    let st = Stack {
        format,
        backgrounds,
        first_background,
        objects,
        cards,
        first_card,
        version: h.version,
        card_window_coords: h.card_window_coords,
        screen_coords: h.screen_coords,
        coords: h.coords,
        fonts,
        styles,
        size: h.size,
        script,
    };
    proof {
        assert(st@.backgrounds =~= bg_list(objs));
        assert(st@.cards =~= card_list(objs));
        assert(st@.fonts =~= font_list(objs));
    }
    Ok(st)
}

/// The fixed header fields of a stack file.
struct FixedHeader {
    format_raw: u32,
    first_background_id: u32,
    first_card_id: u32,
    version: (HypercardVersion, HypercardVersion, HypercardVersion, HypercardVersion),
    card_window_coords: (u16, u16, u16, u16),
    screen_coords: (u16, u16, u16, u16),
    coords: (u16, u16),
    size: (u16, u16),
}

/// Reads the fixed header fields of a stack file.
fn read_fixed_header(bytes: &[u8]) -> (h: FixedHeader)
    requires
        bytes@.len() >= 444,
    ensures
        h.format_raw as int == be_u32_at(bytes@, 16),
        h.first_background_id as int == be_u32_at(bytes@, 40),
        h.first_card_id as int == be_u32_at(bytes@, 48),
        h.version.0.0 as int == be_u32_at(bytes@, 96),
        h.version.1.0 as int == be_u32_at(bytes@, 100),
        h.version.2.0 as int == be_u32_at(bytes@, 104),
        h.version.3.0 as int == be_u32_at(bytes@, 108),
        h.card_window_coords.0 as int == be_u16_at(bytes@, 120) && h.card_window_coords.1 as int
            == be_u16_at(bytes@, 122) && h.card_window_coords.2 as int == be_u16_at(bytes@, 124)
            && h.card_window_coords.3 as int == be_u16_at(bytes@, 126),
        h.screen_coords.0 as int == be_u16_at(bytes@, 128) && h.screen_coords.1 as int == be_u16_at(
            bytes@,
            130,
        ) && h.screen_coords.2 as int == be_u16_at(bytes@, 132) && h.screen_coords.3 as int
            == be_u16_at(bytes@, 134),
        h.coords.0 as int == be_u16_at(bytes@, 136) && h.coords.1 as int == be_u16_at(bytes@, 138),
        h.size.0 as int == be_u16_at(bytes@, 442) && h.size.1 as int == be_u16_at(bytes@, 440),
{
    FixedHeader {
        format_raw: crate::byte::u32_from_u8(slice_subrange(bytes, 16, 20)),
        first_background_id: crate::byte::u32_from_u8(slice_subrange(bytes, 40, 44)),
        first_card_id: crate::byte::u32_from_u8(slice_subrange(bytes, 48, 52)),
        version: (
            HypercardVersion(crate::byte::u32_from_u8(slice_subrange(bytes, 96, 100))),
            HypercardVersion(crate::byte::u32_from_u8(slice_subrange(bytes, 100, 104))),
            HypercardVersion(crate::byte::u32_from_u8(slice_subrange(bytes, 104, 108))),
            HypercardVersion(crate::byte::u32_from_u8(slice_subrange(bytes, 108, 112))),
        ),
        card_window_coords: (
            crate::byte::u16_from_u8(slice_subrange(bytes, 120, 122)),
            crate::byte::u16_from_u8(slice_subrange(bytes, 122, 124)),
            crate::byte::u16_from_u8(slice_subrange(bytes, 124, 126)),
            crate::byte::u16_from_u8(slice_subrange(bytes, 126, 128)),
        ),
        screen_coords: (
            crate::byte::u16_from_u8(slice_subrange(bytes, 128, 130)),
            crate::byte::u16_from_u8(slice_subrange(bytes, 130, 132)),
            crate::byte::u16_from_u8(slice_subrange(bytes, 132, 134)),
            crate::byte::u16_from_u8(slice_subrange(bytes, 134, 136)),
        ),
        coords: (
            crate::byte::u16_from_u8(slice_subrange(bytes, 136, 138)),
            crate::byte::u16_from_u8(slice_subrange(bytes, 138, 140)),
        ),
        size: (
            crate::byte::u16_from_u8(slice_subrange(bytes, 442, 444)),
            crate::byte::u16_from_u8(slice_subrange(bytes, 440, 442)),
        ),
    }
}

/// The reason reported when the file is not a stack.
fn not_a_stack_reason() -> String {
    "not a valid HyperCard stack".to_owned()
}

/// The reason reported when a first card or background cannot be resolved.
fn missing_first_reason() -> String {
    "first card or background not found".to_owned()
}

} // verus!
