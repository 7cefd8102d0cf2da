//! Bitmap block decoding.
//!
//! A BMAP block is a 16-byte generic header followed by a WOBA picture
//! stream.  The decoder hands the stream, beginning at the header's filler
//! word, to the WOBA codec and keeps the decoded picture.

use vstd::prelude::*;

use crate::error::StackError;
use crate::woba::Picture;
use crate::woba::PictureView;
use crate::woba::clone_rows;
use crate::woba::decode_spec;
use vstd::slice::slice_subrange;

verus! {

/// A decoded bitmap block: its image and mask planes with their header
/// rectangles.
#[derive(Debug)]
pub struct Bitmap {
    pub image: Picture,
}

/// The mathematical value of a [`Bitmap`].
pub ghost struct BitmapView {
    pub image: PictureView,
}

impl View for Bitmap {
    type V = BitmapView;

    open spec fn view(&self) -> BitmapView {
        BitmapView { image: self.image@ }
    }
}

impl Clone for Bitmap {
    /// A clone denotes the same bitmap.
    fn clone(&self) -> (r: Self)
        ensures
            r@ == self@,
    {
        let r = Bitmap {
            image: Picture {
                width: self.image.width,
                height: self.image.height,
                rowbytes: self.image.rowbytes,
                total_rect: (
                    self.image.total_rect.0,
                    self.image.total_rect.1,
                    self.image.total_rect.2,
                    self.image.total_rect.3,
                ),
                mask_rect: (
                    self.image.mask_rect.0,
                    self.image.mask_rect.1,
                    self.image.mask_rect.2,
                    self.image.mask_rect.3,
                ),
                image_rect: (
                    self.image.image_rect.0,
                    self.image.image_rect.1,
                    self.image.image_rect.2,
                    self.image.image_rect.3,
                ),
                bitmap: clone_rows(&self.image.bitmap),
                mask: clone_rows(&self.image.mask),
            },
        };
        r
    }
}

/// The decoded value of the bitmap block `b`: its WOBA payload begins at
/// the header's filler word.
pub open spec fn bitmap_from_spec(b: Seq<u8>) -> Option<BitmapView> {
    if b.len() < 12 {
        Option::None
    } else {
        match decode_spec(b.subrange(12, b.len() as int)) {
            Option::None => Option::None,
            Option::Some(p) => Option::Some(BitmapView { image: p }),
        }
    }
}

impl Bitmap {
    /// Decodes a bitmap block.  The block length is bounded by the block
    /// size field of the file format, a `u32`.
    pub fn from(b: &[u8]) -> (r: Result<Bitmap, StackError>)
        requires
            b@.len() < 0x100000000,
        ensures
            bitmap_from_spec(b@) is None ==> r == Err::<Bitmap, StackError>(
                StackError::OutOfBounds,
            ),
            bitmap_from_spec(b@) matches Some(v) ==> (r matches Ok(bm) && bm@ == v),
    {
        if b.len() < 12 {
            return Err(StackError::OutOfBounds);
        }
        let pic_chunk = slice_subrange(b, 12, b.len());
        match crate::woba::decode(pic_chunk) {
            Ok(p) => Ok(Bitmap { image: p }),
            Err(e) => Err(e),
        }
    }
}

} // verus!
