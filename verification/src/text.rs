//! Null-terminated Mac Roman text extraction.
//!
//! Names, scripts and content texts are stored as consecutive
//! null-terminated Mac Roman byte sequences.  [`scan_cstring`] decodes one
//! such sequence and reports where its terminator sits.

use vstd::prelude::*;

use crate::error::StackError;
use crate::macroman::macroman_scalar;
use crate::macroman::macroman_to_char;

verus! {

/// Relies on `String::push`: appends the given `char` to the end of the
/// string.
pub assume_specification[ String::push ](s: &mut String, ch: char)
    ensures
        final (s)@ == old(s)@.push(ch),
;

/// The index of the first zero byte of `s` at or after `off`, or -1 when no
/// byte of `s[off..]` is zero.
pub open spec fn find_zero(s: Seq<u8>, off: int) -> int
    decreases s.len() - off,
{
    if off < 0 || off >= s.len() {
        -1
    } else if s[off] == 0 {
        off
    } else {
        find_zero(s, off + 1)
    }
}

/// The Mac Roman transliteration of `bytes`, character for character.
pub open spec fn macroman_seq(bytes: Seq<u8>) -> Seq<char> {
    Seq::new(bytes.len(), |k: int| macroman_scalar(bytes[k]) as char)
}

/// Reads the null-terminated Mac Roman string of `b` starting at `off`.
/// Returns the decoded text and the index of its terminator, or
/// `OutOfBounds` when no terminator follows.
pub fn scan_cstring(b: &[u8], off: usize) -> (r: Result<(String, usize), StackError>)
    ensures
        find_zero(b@, off as int) < 0 ==> r == Err::<(String, usize), StackError>(
            StackError::OutOfBounds,
        ),
        find_zero(b@, off as int) >= 0 ==> (r matches Ok((s, z)) && z == find_zero(b@, off as int)
            && off <= z < b@.len() && b@[z as int] == 0 && s@ == macroman_seq(
            b@.subrange(off as int, z as int),
        )),
{
    if off >= b.len() {
        return Err(StackError::OutOfBounds);
    }
    let mut s = String::new();
    let mut i: usize = off;
    while i < b.len() && b[i as usize] != 0
        invariant
            off <= i <= b@.len(),
            find_zero(b@, off as int) == find_zero(b@, i as int),
            s@ == macroman_seq(b@.subrange(off as int, i as int)),
        decreases b@.len() - i,
    {
        let c = macroman_to_char(b[i]);
        s.push(c);
        proof {
            vstd::utf8::char_u32_cast(c, macroman_scalar(b@[i as int]));
            assert(b@.subrange(off as int, i + 1 as int) =~= b@.subrange(off as int, i as int).push(
                b@[i as int],
            ));
            assert(s@ =~= macroman_seq(b@.subrange(off as int, i + 1 as int)));
        }
        i = i + 1;
    }
    if i < b.len() {
        proof {
            assert(find_zero(b@, i as int) == i as int);
        }
        Ok((s, i))
    } else {
        proof {
            assert(find_zero(b@, i as int) == -1);
        }
        Err(StackError::OutOfBounds)
    }
}

} // verus!
