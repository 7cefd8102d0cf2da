//! A growable byte buffer with the row operations the WOBA codec needs.
//!
//! The codec keeps two scratch row buffers and an eight-byte pattern
//! memory.  Writes clip at the buffer's end: a cursor may run past the row,
//! and only the bytes that land inside the buffer are stored.

use vstd::prelude::*;

verus! {

/// The bytes of `dst`, with `amount` bytes of `src` starting at `from`
/// copied in at `to`.  Pairs whose source or target index leaves its buffer
/// are skipped.
pub open spec fn copied_clipped(
    dst: Seq<u8>,
    to: int,
    src: Seq<u8>,
    from: int,
    amount: int,
) -> Seq<u8> {
    Seq::new(
        dst.len(),
        |j: int|
            if to <= j < to + amount && 0 <= j - to + from < src.len() {
                src[j - to + from]
            } else {
                dst[j]
            },
    )
}

/// The bytes of `dst`, with `amount` bytes starting at `to` replaced by
/// `v`.  Positions past the end of `dst` are skipped.
pub open spec fn filled_clipped(dst: Seq<u8>, to: int, amount: int, v: u8) -> Seq<u8> {
    Seq::new(
        dst.len(),
        |j: int|
            if to <= j < to + amount {
                v
            } else {
                dst[j]
            },
    )
}

/// The bytes of `dst`, with `amount` bytes of `src` starting at `from`
/// combined in at `to` by exclusive or.
pub open spec fn xored_clipped(
    dst: Seq<u8>,
    to: int,
    src: Seq<u8>,
    from: int,
    amount: int,
) -> Seq<u8> {
    Seq::new(
        dst.len(),
        |j: int|
            if to <= j < to + amount && 0 <= j - to + from < src.len() {
                dst[j] ^ src[j - to + from]
            } else {
                dst[j]
            },
    )
}

/// One byte of the window of `s` at `off..off + amount`, after the whole
/// window is shifted right by `sh` bits with zeros entering at its left
/// edge.  `t` is the byte's index within the window.
pub open spec fn shifted_byte(s: Seq<u8>, off: int, sh: int, t: int) -> u8 {
    let d = sh / 8;
    let r = sh % 8;
    let a: u8 = if t - d >= 0 {
        s[off + t - d]
    } else {
        0
    };
    let b: u8 = if t - d - 1 >= 0 {
        s[off + t - d - 1]
    } else {
        0
    };
    if r == 0 {
        a
    } else {
        ((a >> r as u8) | (b << (8 - r) as u8)) as u8
    }
}

/// The bytes of `s`, with the window at `off..off + amount` shifted right
/// by `sh` bits.  Bytes outside the window are untouched and contribute no
/// bits to the window.
pub open spec fn shifted_window(s: Seq<u8>, off: int, amount: int, sh: int) -> Seq<u8> {
    Seq::new(
        s.len(),
        |j: int|
            if off <= j < off + amount {
                shifted_byte(s, off, sh, j - off)
            } else {
                s[j]
            },
    )
}

/// True when `base + t` indexes into a buffer of length `len`.
fn offset_in(base: usize, t: usize, len: usize) -> (r: bool)
    ensures
        r == (base + t < len),
{
    base < len && t < len - base
}

/// A byte buffer.
#[derive(Debug)]
pub struct CBuf {
    pub data: Vec<u8>,
}

impl View for CBuf {
    type V = Seq<u8>;

    open spec fn view(&self) -> Seq<u8> {
        self.data@
    }
}

impl CBuf {
    /// An empty buffer.
    pub fn new() -> (r: CBuf)
        ensures
            r@ == Seq::<u8>::empty(),
    {
        let r = CBuf { data: Vec::new() };
        proof {
            assert(r@ =~= Seq::<u8>::empty());
        }
        r
    }

    /// A buffer of `n` zero bytes.
    pub fn new_with_size(n: usize) -> (r: CBuf)
        ensures
            r@.len() == n,
            forall|j: int| 0 <= j < n ==> r@[j] == 0u8,
    {
        let mut b = CBuf { data: Vec::new() };
        b.resize(n);
        b
    }

    /// The number of bytes held.
    pub fn size(&self) -> (r: usize)
        ensures
            r == self@.len(),
    {
        self.data.len()
    }

    /// Grows the buffer with zero bytes, or truncates it, to `n` bytes.
    pub fn resize(&mut self, n: usize)
        ensures
            final (self)@.len() == n,
            forall|j: int|
                0 <= j < n ==> final (self)@[j] == (if j < old(self)@.len() {
                    old(self)@[j]
                } else {
                    0u8
                }),
    {
        if n <= self.data.len() {
            self.data.truncate(n);
        } else {
            while self.data.len() < n
                invariant
                    old(self)@.len() <= self.data@.len() <= n,
                    forall|j: int|
                        0 <= j < self.data@.len() ==> self.data@[j] == (if j < old(self)@.len() {
                            old(self)@[j]
                        } else {
                            0u8
                        }),
                decreases n - self.data@.len(),
            {
                self.data.push(0);
            }
        }
    }

    /// The byte at `idx`.
    pub fn get(&self, idx: usize) -> (r: u8)
        requires
            idx < self@.len(),
        ensures
            r == self@[idx as int],
    {
        self.data[idx]
    }

    /// Replaces the byte at `idx`.
    pub fn set(&mut self, idx: usize, v: u8)
        requires
            idx < old(self)@.len(),
        ensures
            final (self)@ == old(self)@.update(idx as int, v),
    {
        self.data.set(idx, v);
    }

    /// Copies `amount` bytes of the slice `src` starting at `from` into the
    /// buffer at `to`, clipping at either end.
    pub fn memcpy_char(&mut self, to: usize, src: &[u8], from: usize, amount: usize)
        ensures
            final (self)@ == copied_clipped(old(self)@, to as int, src@, from as int, amount as int),
    {
        let mut t: usize = 0;
        while t < amount
            invariant
                t <= amount,
                self@.len() == old(self)@.len(),
                forall|j: int|
                    0 <= j < self@.len() ==> self@[j] == (if to <= j < to + t && 0 <= j - to + from
                        < src@.len() {
                        src@[j - to + from]
                    } else {
                        old(self)@[j]
                    }),
            decreases amount - t,
        {
            if offset_in(to, t, self.data.len()) && offset_in(from, t, src.len()) {
                let v = src[from + t];
                self.data.set(to + t, v);
            }
            t = t + 1;
        }
        proof {
            assert(self@ =~= copied_clipped(
                old(self)@,
                to as int,
                src@,
                from as int,
                amount as int,
            ));
        }
    }

    /// Copies `amount` bytes of another buffer starting at `from` into this
    /// one at `to`, clipping at either end.
    pub fn memcpy_buf(&mut self, to: usize, src: &CBuf, from: usize, amount: usize)
        ensures
            final (self)@ == copied_clipped(old(self)@, to as int, src@, from as int, amount as int),
    {
        self.memcpy_char(to, src.data.as_slice(), from, amount)
    }

    /// Writes `amount` copies of `v` into the buffer at `to`, clipping at
    /// the buffer's end.
    pub fn fill(&mut self, to: usize, amount: usize, v: u8)
        ensures
            final (self)@ == filled_clipped(old(self)@, to as int, amount as int, v),
    {
        let mut t: usize = 0;
        while t < amount
            invariant
                t <= amount,
                self@.len() == old(self)@.len(),
                forall|j: int|
                    0 <= j < self@.len() ==> self@[j] == (if to <= j < to + t {
                        v
                    } else {
                        old(self)@[j]
                    }),
            decreases amount - t,
        {
            if offset_in(to, t, self.data.len()) {
                self.data.set(to + t, v);
            }
            t = t + 1;
        }
        proof {
            assert(self@ =~= filled_clipped(old(self)@, to as int, amount as int, v));
        }
    }

    /// Combines `amount` bytes of `src` starting at `from` into the buffer
    /// at `to` by exclusive or, clipping at either end.
    pub fn xornstr_buf(&mut self, to: usize, src: &CBuf, from: usize, amount: usize)
        ensures
            final (self)@ == xored_clipped(old(self)@, to as int, src@, from as int, amount as int),
    {
        let mut t: usize = 0;
        while t < amount
            invariant
                t <= amount,
                self@.len() == old(self)@.len(),
                forall|j: int|
                    0 <= j < self@.len() ==> self@[j] == (if to <= j < to + t && 0 <= j - to + from
                        < src@.len() {
                        old(self)@[j] ^ src@[j - to + from]
                    } else {
                        old(self)@[j]
                    }),
            decreases amount - t,
        {
            if offset_in(to, t, self.data.len()) && offset_in(from, t, src.data.len()) {
                let v = self.data[to + t] ^ src.data[from + t];
                self.data.set(to + t, v);
            }
            t = t + 1;
        }
        proof {
            assert(self@ =~= xored_clipped(old(self)@, to as int, src@, from as int, amount as int));
        }
    }

    /// Shifts the window of the buffer at `to..to + amount` right by
    /// `shift` bits, zeros entering at its left edge.
    pub fn shiftnstr(&mut self, to: usize, amount: usize, shift: u16)
        requires
            shift < 0x80,
        ensures
            final (self)@ == shifted_window(old(self)@, to as int, amount as int, shift as int),
    {
        let d = (shift / 8) as usize;
        let r = (shift % 8) as u8;
        let mut t: usize = amount;
        while t > 0
            invariant
                t <= amount,
                d == shift as int / 8,
                r == shift as int % 8,
                self@.len() == old(self)@.len(),
                forall|j: int| 0 <= j < to + t && j < self@.len() ==> self@[j] == old(self)@[j],
                forall|j: int|
                    to + t <= j < to + amount && j < self@.len() ==> self@[j] == shifted_byte(
                        old(self)@,
                        to as int,
                        shift as int,
                        j - to,
                    ),
                forall|j: int|
                    to + amount <= j < self@.len() ==> self@[j] == old(self)@[j],
            decreases t,
        {
            t = t - 1;
            if offset_in(to, t, self.data.len()) {
                let a: u8 = if t >= d && to + t - d < self.data.len() {
                    self.data[to + t - d]
                } else {
                    0
                };
                let b: u8 = if t >= d + 1 && to + t - d - 1 < self.data.len() {
                    self.data[to + t - d - 1]
                } else {
                    0
                };
                let v: u8 = if r == 0 {
                    a
                } else {
                    (a >> r) | (b << (8 - r))
                };
                proof {
                    assert(v == shifted_byte(old(self)@, to as int, shift as int, t as int));
                }
                self.data.set(to + t, v);
            }
        }
        proof {
            assert(self@ =~= shifted_window(old(self)@, to as int, amount as int, shift as int));
        }
    }
}

} // verus!
