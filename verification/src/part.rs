//! Part and part-content decoding.
//!
//! A Part is a button or field record inside a card or background.  Its
//! fixed header is followed by two null-terminated Mac Roman strings (name
//! and script) and a list of content entries.  Each content entry carries an
//! id, an optional style-run table whose presence is signalled in-band, and
//! a null-terminated text payload.
//!
//! Offsets are listed in [`crate::layout::PartLayout`] and the two nested
//! content layouts.  Every byte offset is bounds-checked; a read past the
//! end of the record fails with `OutOfBounds`, which the enclosing card or
//! background decoder may recover from by retrying with an open-ended
//! slice.

use vstd::prelude::*;

use crate::byte::be_i16_at;
use crate::byte::be_u16_at;
use crate::byte::read_u16_at;
use crate::byte::read_u8_at;
use crate::error::StackError;
use crate::text::find_zero;
use crate::text::macroman_seq;
use crate::text::scan_cstring;

verus! {

/// What a part is: a button, a field, or something this decoder does not
/// know.
#[derive(Debug, Clone, Copy, PartialEq, Eq, Structural)]
pub enum PartType {
    Button,
    Field,
    Unknown,
}

/// The drawn style of a part.
#[derive(Debug, Clone, Copy, PartialEq, Eq, Structural)]
pub enum PartStyle {
    Transparent,
    Opaque,
    Rectangle,
    RoundRectangle,
    Shadow,
    Checkbox,
    Radio,
    Scrolling,
    Standard,
    Default,
    Oval,
    Popup,
    Unknown,
}

/// Text alignment of a part's title or content.
#[derive(Debug, Clone, Copy, PartialEq, Eq, Structural)]
pub enum TextAlignment {
    Left,
    Center,
    Right,
    ForceLeftAlign,
    ForceCenterAlign,
    ForceRightAlign,
    Unknown,
}

/// One style run of a content entry: a text position and a style id.
#[derive(Debug, Clone, Copy, PartialEq, Eq, Structural)]
pub struct ContentEntryStyle {
    pub text_position: u16,
    pub id: u16,
}

/// One content entry of a part: an id, optional style runs, and a text
/// payload.
#[derive(Debug)]
pub struct ContentEntry {
    pub id: u16,
    pub styles: Option<Vec<ContentEntryStyle>>,
    pub text: String,
}

/// The mathematical value of a [`ContentEntry`].
pub ghost struct ContentEntryView {
    pub id: u16,
    pub styles: Option<Seq<ContentEntryStyle>>,
    pub text: Seq<char>,
}

/// Copies a vector of style runs element for element.
fn clone_style_runs(v: &Vec<ContentEntryStyle>) -> (r: Vec<ContentEntryStyle>)
    ensures
        r@ == v@,
{
    let mut r: Vec<ContentEntryStyle> = Vec::new();
    let mut i: usize = 0;
    while i < v.len()
        invariant
            i <= v@.len(),
            r@ == v@.subrange(0, i as int),
        decreases v@.len() - i,
    {
        r.push(v[i]);
        proof {
            assert(r@ =~= v@.subrange(0, i + 1));
        }
        i = i + 1;
    }
    proof {
        assert(r@ =~= v@);
    }
    r
}

impl Clone for ContentEntry {
    /// A clone denotes the same entry.
    fn clone(&self) -> (r: Self)
        ensures
            r@ == self@,
    {
        ContentEntry {
            id: self.id,
            styles: match &self.styles {
                Option::None => Option::None,
                Option::Some(v) => Option::Some(clone_style_runs(v)),
            },
            text: self.text.clone(),
        }
    }
}

/// Copies a vector of content entries entry for entry.
pub fn clone_entries(v: &Vec<ContentEntry>) -> (r: Vec<ContentEntry>)
    ensures
        r@.len() == v@.len(),
        forall|k: int| 0 <= k < v@.len() ==> (#[trigger] r@[k])@ == v@[k]@,
{
    let mut r: Vec<ContentEntry> = Vec::new();
    let mut i: usize = 0;
    while i < v.len()
        invariant
            i <= v@.len(),
            r@.len() == i,
            forall|k: int| 0 <= k < i ==> (#[trigger] r@[k])@ == v@[k]@,
        decreases v@.len() - i,
    {
        r.push(v[i].clone());
        i = i + 1;
    }
    r
}

/// Copies a vector of parts part for part.
pub fn clone_parts(v: &Vec<Part>) -> (r: Vec<Part>)
    ensures
        r@.len() == v@.len(),
        forall|k: int| 0 <= k < v@.len() ==> (#[trigger] r@[k])@ == v@[k]@,
{
    let mut r: Vec<Part> = Vec::new();
    let mut i: usize = 0;
    while i < v.len()
        invariant
            i <= v@.len(),
            r@.len() == i,
            forall|k: int| 0 <= k < i ==> (#[trigger] r@[k])@ == v@[k]@,
        decreases v@.len() - i,
    {
        r.push(v[i].clone());
        i = i + 1;
    }
    r
}

impl Clone for Part {
    /// A clone denotes the same part.
    fn clone(&self) -> (r: Self)
        ensures
            r@ == self@,
    {
        let r = Part {
            ty: self.ty,
            position: (self.position.0, self.position.1, self.position.2, self.position.3),
            style: self.style,
            title_width: self.title_width,
            text_alignment: self.text_alignment,
            font_id: self.font_id,
            font_size: self.font_size,
            text_flags: self.text_flags,
            line_height: self.line_height,
            name: self.name.clone(),
            script: self.script.clone(),
            contents: clone_entries(&self.contents),
        };
        proof {
            assert(r@.contents =~= self@.contents);
        }
        r
    }
}

impl View for ContentEntry {
    type V = ContentEntryView;

    open spec fn view(&self) -> ContentEntryView {
        ContentEntryView {
            id: self.id,
            styles: match self.styles {
                Option::None => Option::None,
                Option::Some(v) => Option::Some(v@),
            },
            text: self.text@,
        }
    }
}

/// A button or field record.
#[derive(Debug)]
pub struct Part {
    pub ty: PartType,
    pub position: (u16, u16, u16, u16),
    pub style: PartStyle,
    pub title_width: u16,
    pub text_alignment: TextAlignment,
    pub font_id: u16,
    pub font_size: u16,
    pub text_flags: u8,
    pub line_height: u16,
    pub name: String,
    pub script: String,
    pub contents: Vec<ContentEntry>,
}

/// The mathematical value of a [`Part`].
pub ghost struct PartView {
    pub ty: PartType,
    pub position: (u16, u16, u16, u16),
    pub style: PartStyle,
    pub title_width: u16,
    pub text_alignment: TextAlignment,
    pub font_id: u16,
    pub font_size: u16,
    pub text_flags: u8,
    pub line_height: u16,
    pub name: Seq<char>,
    pub script: Seq<char>,
    pub contents: Seq<ContentEntryView>,
}

impl View for Part {
    type V = PartView;

    open spec fn view(&self) -> PartView {
        PartView {
            ty: self.ty,
            position: self.position,
            style: self.style,
            title_width: self.title_width,
            text_alignment: self.text_alignment,
            font_id: self.font_id,
            font_size: self.font_size,
            text_flags: self.text_flags,
            line_height: self.line_height,
            name: self.name@,
            script: self.script@,
            contents: Seq::new(self.contents@.len(), |k: int| self.contents@[k]@),
        }
    }
}

/// The part type that a type code denotes.
pub open spec fn part_type_of(v: int) -> PartType {
    if v == 0 {
        PartType::Button
    } else if v == 1 {
        PartType::Field
    } else {
        PartType::Unknown
    }
}

/// The part style that a style byte denotes.
pub open spec fn part_style_of(v: u8) -> PartStyle {
    if v == 0 {
        PartStyle::Transparent
    } else if v == 1 {
        PartStyle::Opaque
    } else if v == 2 {
        PartStyle::Rectangle
    } else if v == 3 {
        PartStyle::RoundRectangle
    } else if v == 4 {
        PartStyle::Shadow
    } else if v == 5 {
        PartStyle::Checkbox
    } else if v == 6 {
        PartStyle::Radio
    } else if v == 7 {
        PartStyle::Scrolling
    } else if v == 8 {
        PartStyle::Standard
    } else if v == 9 {
        PartStyle::Default
    } else if v == 10 {
        PartStyle::Oval
    } else if v == 11 {
        PartStyle::Popup
    } else {
        PartStyle::Unknown
    }
}

/// The alignment that a signed alignment code denotes.
pub open spec fn alignment_of(v: int) -> TextAlignment {
    if v == 0 {
        TextAlignment::Left
    } else if v == 1 {
        TextAlignment::Center
    } else if v == -1 {
        TextAlignment::Right
    } else if v == -2 {
        TextAlignment::ForceLeftAlign
    } else if v == -3 {
        TextAlignment::ForceCenterAlign
    } else if v == -4 {
        TextAlignment::ForceRightAlign
    } else {
        TextAlignment::Unknown
    }
}

/// The number of style runs that a style-length word declares: the top bit
/// is always set and is masked off, and each run is four bytes wide.
pub open spec fn style_run_count(b: Seq<u8>, off: int) -> int {
    be_u16_at(b, off + 2) % 0x8000 / 4
}

/// The decoded value of the content entry of `b` at `off`, of declared
/// width `width`, or `None` when a read would leave the buffer.
pub open spec fn entry_spec(b: Seq<u8>, off: int, width: int) -> Option<ContentEntryView> {
    if off + width > b.len() || off + 3 > b.len() {
        Option::None
    } else if b[off + 2] == 0 {
        // A zero marker byte: no style runs; the text follows the marker.
        if find_zero(b, off + 3) < 0 {
            Option::None
        } else {
            Option::Some(
                ContentEntryView {
                    id: be_u16_at(b, off) as u16,
                    styles: Option::None,
                    text: macroman_seq(b.subrange(off + 3, find_zero(b, off + 3))),
                },
            )
        }
    } else {
        let cnt = style_run_count(b, off);
        if off + 4 + 4 * cnt > b.len() {
            Option::None
        } else if find_zero(b, off + 4 + 4 * cnt) < 0 {
            Option::None
        } else {
            Option::Some(
                ContentEntryView {
                    id: be_u16_at(b, off) as u16,
                    styles: Option::Some(
                        Seq::new(
                            cnt as nat,
                            |k: int|
                                ContentEntryStyle {
                                    text_position: be_u16_at(b, off + 4 + 4 * k) as u16,
                                    id: be_u16_at(b, off + 6 + 4 * k) as u16,
                                },
                        ),
                    ),
                    text: macroman_seq(
                        b.subrange(off + 4 + 4 * cnt, find_zero(b, off + 4 + 4 * cnt)),
                    ),
                },
            )
        }
    }
}

/// The decoded values of `n` consecutive content entries of `b` starting at
/// `off`, each of declared width `width`, or `None` when any entry fails.
pub open spec fn entries_spec(b: Seq<u8>, off: int, n: int, width: int) -> Option<
    Seq<ContentEntryView>,
>
    decreases n,
{
    if n <= 0 {
        Option::Some(Seq::empty())
    } else {
        match entry_spec(b, off, width) {
            Option::None => Option::None,
            Option::Some(e) => match entries_spec(b, off + width, n - 1, width) {
                Option::None => Option::None,
                Option::Some(rest) => Option::Some(seq![e] + rest),
            },
        }
    }
}

/// Decodes the content entry of `b` at `off` with declared width `width`.
fn content_entry_from(b: &[u8], off: u64, width: u32) -> (r: Result<ContentEntry, StackError>)
    requires
        b@.len() < 0x100000000,
        off < 0x1000000000000000,
    ensures
        entry_spec(b@, off as int, width as int) is None ==> r == Err::<ContentEntry, StackError>(
            StackError::OutOfBounds,
        ),
        entry_spec(b@, off as int, width as int) matches Some(v) ==> (r matches Ok(e) && e@ == v),
{
    if off + (width as u64) > b.len() as u64 || off + 3 > b.len() as u64 {
        return Err(StackError::OutOfBounds);
    }
    let offu = off as usize;
    let id = match read_u16_at(b, offu) {
        Ok(v) => v,
        Err(e) => {
            return Err(e);
        },
    };
    let marker = match read_u8_at(b, offu + 2) {
        Ok(v) => v,
        Err(e) => {
            return Err(e);
        },
    };
    if marker == 0 {
        let (text, _z) = match scan_cstring(b, offu + 3) {
            Ok(v) => v,
            Err(e) => {
                return Err(e);
            },
        };
        Ok(ContentEntry { id, styles: None, text })
    } else {
        let style_len = match read_u16_at(b, offu + 2) {
            Ok(v) => v,
            Err(e) => {
                return Err(e);
            },
        };
        let cnt = ((style_len % 0x8000) / 4) as usize;
        if (offu + 4) as u64 + 4 * (cnt as u64) > b.len() as u64 {
            return Err(StackError::OutOfBounds);
        }
        let ghost cnt_spec = style_run_count(b@, off as int);
        proof {
            assert(cnt == cnt_spec);
        }
        let mut runs: Vec<ContentEntryStyle> = Vec::new();
        let mut k: usize = 0;
        while k < cnt
            invariant
                k <= cnt,
                offu + 4 + 4 * cnt <= b@.len(),
                b@.len() < 0x100000000,
                runs@.len() == k,
                forall|j: int|
                    0 <= j < k ==> (#[trigger] runs@[j]).text_position as int == be_u16_at(
                        b@,
                        offu + 4 + 4 * j,
                    ) && runs@[j].id as int == be_u16_at(b@, offu + 6 + 4 * j),
            decreases cnt - k,
        {
            let tp = match read_u16_at(b, offu + 4 + 4 * k) {
                Ok(v) => v,
                Err(e) => {
                    return Err(e);
                },
            };
            let sid = match read_u16_at(b, offu + 6 + 4 * k) {
                Ok(v) => v,
                Err(e) => {
                    return Err(e);
                },
            };
            runs.push(ContentEntryStyle { text_position: tp, id: sid });
            k = k + 1;
        }
        let (text, _z) = match scan_cstring(b, offu + 4 + 4 * cnt) {
            Ok(v) => v,
            Err(e) => {
                return Err(e);
            },
        };
        let e = ContentEntry { id, styles: Some(runs), text };
        proof {
            let v = entry_spec(b@, off as int, width as int)->Some_0;
            assert(e@.styles->Some_0 =~= v.styles->Some_0);
        }
        Ok(e)
    }
}

/// Decodes `n` consecutive content entries of `b` starting at `off`.
fn content_entries_from(b: &[u8], off: u64, n: u16, width: u32) -> (r: Result<
    Vec<ContentEntry>,
    StackError,
>)
    requires
        b@.len() < 0x100000000,
        off < 0x200000000,
    ensures
        entries_spec(b@, off as int, n as int, width as int) is None ==> r == Err::<
            Vec<ContentEntry>,
            StackError,
        >(StackError::OutOfBounds),
        entries_spec(b@, off as int, n as int, width as int) matches Some(v) ==> (r matches Ok(es)
            && Seq::new(es@.len(), |k: int| es@[k]@) == v),
{
    let mut es: Vec<ContentEntry> = Vec::new();
    let mut i: u16 = 0;
    let mut cur: u64 = off;
    while i < n
        invariant
            b@.len() < 0x100000000,
            i <= n,
            off < 0x200000000,
            cur == off + (i as int) * (width as int),
            es@.len() == i,
            entries_spec(b@, off as int, n as int, width as int) == (match entries_spec(
                b@,
                cur as int,
                n - i,
                width as int,
            ) {
                Option::None => Option::None::<Seq<ContentEntryView>>,
                Option::Some(rest) => Option::Some(Seq::new(es@.len(), |k: int| es@[k]@) + rest),
            }),
        decreases n - i,
    {
        proof {
            assert((i as int) * (width as int) <= 0xFFFF * 0x100000000) by (nonlinear_arith)
                requires
                    i <= 0xFFFF && width <= 0xFFFFFFFFu32,
            ;
        }
        let e = match content_entry_from(b, cur, width) {
            Ok(v) => v,
            Err(e) => {
                return Err(StackError::OutOfBounds);
            },
        };
        es.push(e);
        proof {
            assert((i + 1) as int * (width as int) == (i as int) * (width as int) + width as int)
                by (nonlinear_arith);
            let ghost evs = Seq::new(es@.len(), |k: int| es@[k]@);
            match entries_spec(b@, cur as int + width as int, n - i - 1, width as int) {
                Option::None => {},
                Option::Some(rest) => {
                    assert(evs + rest =~= Seq::new((es@.len() - 1) as nat, |k: int| es@[k]@) + (
                    seq![es@[es@.len() - 1]@] + rest));
                },
            }
        }
        cur = cur + width as u64;
        i = i + 1;
    }
    proof {
        let ghost empty: Seq<ContentEntryView> = Seq::empty();
        assert(Seq::new(es@.len(), |k: int| es@[k]@) + empty =~= Seq::new(
            es@.len(),
            |k: int| es@[k]@,
        ));
    }
    Ok(es)
}

/// The decoded value of the part record `b`, given the enclosing block's
/// content-entry count and declared entry width, or `None` when a read
/// would leave the record.
pub open spec fn part_from_spec(b: Seq<u8>, n: u16, width: u32) -> Option<PartView> {
    if b.len() < 30 {
        Option::None
    } else {
        let z1 = find_zero(b, 30);
        if z1 < 0 {
            Option::None
        } else {
            let z2 = find_zero(b, z1 + 1);
            if z2 < 0 {
                Option::None
            } else {
                match entries_spec(b, z2 + 1, n as int, width as int) {
                    Option::None => Option::None,
                    Option::Some(es) => Option::Some(
                        PartView {
                            ty: part_type_of(be_u16_at(b, 2)),
                            position: (
                                be_u16_at(b, 6) as u16,
                                be_u16_at(b, 8) as u16,
                                be_u16_at(b, 10) as u16,
                                be_u16_at(b, 12) as u16,
                            ),
                            style: part_style_of(b[15]),
                            title_width: be_u16_at(b, 16) as u16,
                            text_alignment: alignment_of(be_i16_at(b, 20)),
                            font_id: be_u16_at(b, 22) as u16,
                            font_size: be_u16_at(b, 24) as u16,
                            text_flags: b[14],
                            line_height: be_u16_at(b, 28) as u16,
                            name: macroman_seq(b.subrange(30, z1)),
                            script: macroman_seq(b.subrange(z1 + 1, z2)),
                            contents: es,
                        },
                    ),
                }
            }
        }
    }
}

impl Part {
    /// Decodes a part record.  `part_content_num` and
    /// `part_content_list_size` come from the enclosing card or background
    /// header.  The record length is bounded by the block size field of the
    /// file format, a `u32`.
    pub fn from(b: &[u8], part_content_num: u16, part_content_list_size: u32) -> (r: Result<
        Part,
        StackError,
    >)
        requires
            b@.len() < 0x100000000,
        ensures
            part_from_spec(b@, part_content_num, part_content_list_size) is None ==> r == Err::<
                Part,
                StackError,
            >(StackError::OutOfBounds),
            part_from_spec(b@, part_content_num, part_content_list_size) matches Some(v) ==> (
            r matches Ok(p) && p@ == v),
    {
        if b.len() < 30 {
            return Err(StackError::OutOfBounds);
        }
        let ty_code = u16_at_checked(b, 2);
        let ty = if ty_code == 0 {
            PartType::Button
        } else if ty_code == 1 {
            PartType::Field
        } else {
            PartType::Unknown
        };
        let position = (
            u16_at_checked(b, 6),
            u16_at_checked(b, 8),
            u16_at_checked(b, 10),
            u16_at_checked(b, 12),
        );
        let style_byte = b[15];
        let style = if style_byte == 0 {
            PartStyle::Transparent
        } else if style_byte == 1 {
            PartStyle::Opaque
        } else if style_byte == 2 {
            PartStyle::Rectangle
        } else if style_byte == 3 {
            PartStyle::RoundRectangle
        } else if style_byte == 4 {
            PartStyle::Shadow
        } else if style_byte == 5 {
            PartStyle::Checkbox
        } else if style_byte == 6 {
            PartStyle::Radio
        } else if style_byte == 7 {
            PartStyle::Scrolling
        } else if style_byte == 8 {
            PartStyle::Standard
        } else if style_byte == 9 {
            PartStyle::Default
        } else if style_byte == 10 {
            PartStyle::Oval
        } else if style_byte == 11 {
            PartStyle::Popup
        } else {
            PartStyle::Unknown
        };
        let title_width = u16_at_checked(b, 16);
        let align_code = i16_at_checked(b, 20);
        let text_alignment = if align_code == 0 {
            TextAlignment::Left
        } else if align_code == 1 {
            TextAlignment::Center
        } else if align_code == -1 {
            TextAlignment::Right
        } else if align_code == -2 {
            TextAlignment::ForceLeftAlign
        } else if align_code == -3 {
            TextAlignment::ForceCenterAlign
        } else if align_code == -4 {
            TextAlignment::ForceRightAlign
        } else {
            TextAlignment::Unknown
        };
        let font_id = u16_at_checked(b, 22);
        let font_size = u16_at_checked(b, 24);
        let text_flags = b[14];
        let line_height = u16_at_checked(b, 28);
        let (name, z1) = match scan_cstring(b, 30) {
            Ok(v) => v,
            Err(e) => {
                return Err(e);
            },
        };
        let (script, z2) = match scan_cstring(b, z1 + 1) {
            Ok(v) => v,
            Err(e) => {
                return Err(e);
            },
        };
        let contents = match content_entries_from(
            b,
            (z2 as u64) + 1,
            part_content_num,
            part_content_list_size,
        ) {
            Ok(v) => v,
            Err(e) => {
                return Err(e);
            },
        };
        let p = Part {
            ty,
            position,
            style,
            title_width,
            text_alignment,
            font_id,
            font_size,
            text_flags,
            line_height,
            name,
            script,
            contents,
        };
        proof {
            let v = part_from_spec(b@, part_content_num, part_content_list_size)->Some_0;
            assert(p@.contents =~= v.contents);
        }
        Ok(p)
    }
}

/// Reads a `u16` at an offset known to be in bounds.
fn u16_at_checked(b: &[u8], off: usize) -> (r: u16)
    requires
        off + 2 <= b@.len(),
    ensures
        r as int == be_u16_at(b@, off as int),
{
    (b[off] as u16) * 0x100 + (b[off + 1] as u16)
}

/// Reads a big-endian `i16` at an offset known to be in bounds.
fn i16_at_checked(b: &[u8], off: usize) -> (r: i16)
    requires
        off + 2 <= b@.len(),
    ensures
        r as int == be_i16_at(b@, off as int),
{
    let v = (b[off] as u16) * 0x100 + (b[off + 1] as u16);
    if v >= 0x8000 {
        ((v as i32) - 0x10000) as i16
    } else {
        v as i16
    }
}

} // verus!
