//! The WOBA bitmap codec.
//!
//! WOBA compresses a 1-bit image plane and an optional mask plane with
//! run, pattern, repeat and row-reference opcodes.  The decoder is a
//! sequential state machine: a bit-row buffer is assembled byte by byte and
//! flushed to the plane when full, a one-shot repeat count multiplies the
//! next opcode, an eight-byte pattern memory remembers fill patterns by row
//! parity, and row-reference opcodes copy earlier plane rows.
//!
//! The machine is specified by [`step_spec`], one opcode per step, and the
//! executable decoder is proved to follow it exactly.  Plane coordinates
//! are clamped to be non-negative: a negative rectangle coordinate denotes
//! nothing for a stored plane, and every row write clips to the plane's
//! bounds.

use vstd::prelude::*;

use crate::byte::be_i16_at;
use crate::byte::be_u32_at;
use crate::cbuf::CBuf;
use crate::cbuf::copied_clipped;
use crate::cbuf::filled_clipped;
use crate::cbuf::shifted_window;
use crate::cbuf::xored_clipped;
use crate::error::StackError;
use vstd::slice::slice_subrange;

verus! {

/// A zero row of `n` bytes.
pub open spec fn zero_row(n: int) -> Seq<u8> {
    Seq::new(n as nat, |t: int| 0u8)
}

/// The plane `rows` with row `y` replaced by `row`; a `y` outside the plane
/// changes nothing.
pub open spec fn plane_set(rows: Seq<Seq<u8>>, y: int, row: Seq<u8>) -> Seq<Seq<u8>> {
    if 0 <= y < rows.len() {
        rows.update(y, row)
    } else {
        rows
    }
}

/// The plane `rows` with `n` bytes of row `y` from byte `o` replaced by
/// `v`, clipped to the row.
pub open spec fn plane_fill(rows: Seq<Seq<u8>>, y: int, o: int, n: int, v: u8) -> Seq<Seq<u8>> {
    if 0 <= y < rows.len() {
        plane_set(rows, y, filled_clipped(rows[y], o, n, v))
    } else {
        rows
    }
}

/// The plane `rows` with `src` written into row `y` from byte `o`, clipped
/// to the row.
pub open spec fn plane_write(rows: Seq<Seq<u8>>, y: int, o: int, src: Seq<u8>) -> Seq<Seq<u8>> {
    if 0 <= y < rows.len() {
        plane_set(rows, y, copied_clipped(rows[y], o, src, 0, src.len() as int))
    } else {
        rows
    }
}

/// The plane `rows` with row `y` replaced by row `sy`; a source outside the
/// plane reads as zeros.
pub open spec fn plane_copy(rows: Seq<Seq<u8>>, y: int, sy: int) -> Seq<Seq<u8>> {
    if 0 <= y < rows.len() {
        if 0 <= sy < rows.len() {
            plane_set(rows, y, rows[sy])
        } else {
            plane_set(rows, y, zero_row(rows[y].len() as int))
        }
    } else {
        rows
    }
}

/// `n` bytes of row `y` from byte `o`; positions outside the plane read as
/// zeros.
pub open spec fn plane_read(rows: Seq<Seq<u8>>, y: int, o: int, n: int) -> Seq<u8> {
    Seq::new(
        n as nat,
        |t: int|
            if 0 <= y < rows.len() && 0 <= o + t < rows[y].len() {
                rows[y][o + t]
            } else {
                0u8
            },
    )
}

/// The row index after one row advance: the cursor saturates at the
/// plane's height, where every further write already clips to nothing.
pub open spec fn sat_y(y: int, height: int) -> int {
    if y + 1 > height {
        height
    } else {
        y + 1
    }
}

/// The pattern-memory slot of row `y`.
pub open spec fn pat_idx(y: int) -> int {
    y % 8
}

/// The smaller of two quantities.
pub open spec fn min_int(a: int, b: int) -> int {
    if a < b {
        a
    } else {
        b
    }
}

/// The decoder's state for one plane.
pub ghost struct PState {
    /// Byte cursor within the row buffer, saturating at `rowwidth`.
    pub x: int,
    /// Current plane row, saturating at `height`.
    pub y: int,
    /// Bit-shift used when a flushed row repeats itself horizontally.
    pub dx: int,
    /// Row distance used when a flushed row builds on an earlier row.
    pub dy: int,
    /// One-shot repeat count for the next opcode.
    pub repeat: int,
    /// Byte offset of the row window within a plane row.
    pub obyte: int,
    /// Width of the row buffer in bytes.
    pub rowwidth: int,
    /// The eight-byte pattern memory.
    pub pattern: Seq<u8>,
    /// The row buffer.
    pub buffer1: Seq<u8>,
    /// The scratch buffer of the flush rule.
    pub buffer2: Seq<u8>,
    /// The plane rows.
    pub rows: Seq<Seq<u8>>,
    /// Input cursor.
    pub i: int,
    /// Bytes of the plane's stream consumed so far.
    pub j: int,
    /// Length of the plane's stream in bytes.
    pub len: int,
}

/// Well-formedness of a plane-decoder state.
pub open spec fn wf(s: PState, rowbytes: int) -> bool {
    &&& s.buffer1.len() == s.rowwidth
    &&& s.buffer2.len() == s.rowwidth
    &&& s.pattern.len() == 8
    &&& 0 <= s.x <= s.rowwidth
    &&& 0 <= s.y <= s.rows.len()
    &&& 0 <= s.repeat < 32
    &&& 0 <= s.dx <= 16
    &&& 0 <= s.dy <= 2
    &&& 0 <= s.obyte <= 0x10000
    &&& 0 <= s.rowwidth <= 0x10000
    &&& s.rows.len() <= 0x10000
    &&& (forall|k: int| 0 <= k < s.rows.len() ==> (#[trigger] s.rows[k]).len() == rowbytes)
    &&& 0 <= rowbytes <= 0x10000
    &&& 0 <= s.i
    &&& 0 <= s.j
    &&& s.len <= 0xFFFFFFFF
}

/// `r` applications of one zero-run-then-data write to the row buffer.
/// Each application writes `nz` zero bytes at the cursor, then the data
/// bytes, the cursor saturating at the buffer's end.
pub open spec fn rep_zero_data(buf: Seq<u8>, x: int, nz: int, src: Seq<u8>, r: int) -> (
    Seq<u8>,
    int,
)
    decreases r,
{
    if r <= 0 {
        (buf, x)
    } else {
        let b1 = filled_clipped(buf, x, nz, 0);
        let x1 = min_int(x + nz, buf.len() as int);
        let b2 = copied_clipped(b1, x1, src, 0, src.len() as int);
        let x2 = min_int(x1 + src.len(), buf.len() as int);
        rep_zero_data(b2, x2, nz, src, r - 1)
    }
}

/// `r` rows filled with the byte `v`, the row cursor advancing each time.
pub open spec fn rep_fill_rows(
    rows: Seq<Seq<u8>>,
    y: int,
    o: int,
    n: int,
    v: u8,
    r: int,
    height: int,
) -> (Seq<Seq<u8>>, int)
    decreases r,
{
    if r <= 0 {
        (rows, y)
    } else {
        rep_fill_rows(plane_fill(rows, y, o, n, v), sat_y(y, height), o, n, v, r - 1, height)
    }
}

/// `r` rows written from the same raw bytes, the row cursor advancing each
/// time.
pub open spec fn rep_raw_rows(
    rows: Seq<Seq<u8>>,
    y: int,
    o: int,
    src: Seq<u8>,
    r: int,
    height: int,
) -> (Seq<Seq<u8>>, int)
    decreases r,
{
    if r <= 0 {
        (rows, y)
    } else {
        rep_raw_rows(plane_write(rows, y, o, src), sat_y(y, height), o, src, r - 1, height)
    }
}

/// `r` rows filled with the operand, which is also stored into the pattern
/// memory slot of each row.
pub open spec fn rep_pattern_store(
    rows: Seq<Seq<u8>>,
    pattern: Seq<u8>,
    v: u8,
    y: int,
    o: int,
    n: int,
    r: int,
    height: int,
) -> (Seq<Seq<u8>>, Seq<u8>, int)
    decreases r,
{
    if r <= 0 {
        (rows, pattern, y)
    } else {
        rep_pattern_store(
            plane_fill(rows, y, o, n, v),
            pattern.update(pat_idx(y), v),
            v,
            sat_y(y, height),
            o,
            n,
            r - 1,
            height,
        )
    }
}

/// `r` rows filled from the pattern memory slot of each row.
pub open spec fn rep_pattern_fill(
    rows: Seq<Seq<u8>>,
    pattern: Seq<u8>,
    y: int,
    o: int,
    n: int,
    r: int,
    height: int,
) -> (Seq<Seq<u8>>, int)
    decreases r,
{
    if r <= 0 {
        (rows, y)
    } else {
        rep_pattern_fill(
            plane_fill(rows, y, o, n, pattern[pat_idx(y)]),
            pattern,
            sat_y(y, height),
            o,
            n,
            r - 1,
            height,
        )
    }
}

/// `r` rows copied from the row `d` back, the row cursor advancing each
/// time.
pub open spec fn rep_copy_rows(rows: Seq<Seq<u8>>, y: int, d: int, r: int, height: int) -> (
    Seq<Seq<u8>>,
    int,
)
    decreases r,
{
    if r <= 0 {
        (rows, y)
    } else {
        rep_copy_rows(plane_copy(rows, y, y - d), sat_y(y, height), d, r - 1, height)
    }
}

/// `k` rounds of the horizontal-repeat rule: the scratch buffer shifts
/// right by `dx` bits and is combined into the row buffer by exclusive or.
pub open spec fn rep_shift_xor(b1: Seq<u8>, b2: Seq<u8>, dx: int, k: int) -> (Seq<u8>, Seq<u8>)
    decreases k,
{
    if k <= 0 {
        (b1, b2)
    } else {
        let nb2 = shifted_window(b2, 0, b2.len() as int, dx);
        let nb1 = xored_clipped(b1, 0, nb2, 0, nb2.len() as int);
        rep_shift_xor(nb1, nb2, dx, k - 1)
    }
}

/// The state after the row buffer is flushed to the plane, when full.  If
/// `dx` is set the row repeats itself horizontally; if `dy` is set the row
/// builds on the row `dy` back by exclusive or.
pub open spec fn flush_spec(s: PState) -> PState {
    if s.x >= s.rowwidth {
        let (b1a, b2a) = if s.dx != 0 {
            rep_shift_xor(s.buffer1, s.buffer1, s.dx, s.rowwidth * 8 / s.dx)
        } else {
            (s.buffer1, s.buffer2)
        };
        let (b1b, b2b) = if s.dy != 0 {
            let readout = plane_read(s.rows, s.y - s.dy, s.obyte, s.rowwidth);
            (xored_clipped(b1a, 0, readout, 0, readout.len() as int), readout)
        } else {
            (b1a, b2a)
        };
        PState {
            x: 0,
            y: sat_y(s.y, s.rows.len() as int),
            buffer1: b1b,
            buffer2: b2b,
            rows: plane_write(s.rows, s.y, s.obyte, b1b),
            ..s
        }
    } else {
        s
    }
}

/// One opcode of the WOBA stream, applied to the state `s`.  `None` means
/// the stream ended where a byte was owed.
#[verifier::opaque]
pub open spec fn step_spec(s: PState, data: Seq<u8>) -> Option<PState> {
    if s.i >= data.len() {
        Option::None
    } else {
        let op = data[s.i];
        let s1 = PState { i: s.i + 1, j: s.j + 1, ..s };
        if op < 0x80 {
            // Zeros followed by data bytes, then the flush rule.
            let nd = op as int / 16;
            let nz = op as int % 16;
            if s1.i + nd > data.len() {
                Option::None
            } else {
                let src = data.subrange(s1.i, s1.i + nd);
                let (buf, x) = rep_zero_data(s1.buffer1, s1.x, nz, src, s1.repeat);
                let s2 = PState {
                    buffer1: buf,
                    x: x,
                    repeat: 1,
                    i: s1.i + nd,
                    j: s1.j + nd,
                    ..s1
                };
                Option::Some(flush_spec(s2))
            }
        } else if 0xC0 <= op && op < 0xE0 {
            // A run of data bytes, then the flush rule.
            let nd = (op as int % 32) * 8;
            if s1.i + nd > data.len() {
                Option::None
            } else {
                let src = data.subrange(s1.i, s1.i + nd);
                let (buf, x) = rep_zero_data(s1.buffer1, s1.x, 0, src, s1.repeat);
                let s2 = PState {
                    buffer1: buf,
                    x: x,
                    repeat: 1,
                    i: s1.i + nd,
                    j: s1.j + nd,
                    ..s1
                };
                Option::Some(flush_spec(s2))
            }
        } else if op >= 0xE0 {
            // A run of zero bytes, then the flush rule.
            let nz = (op as int % 32) * 16;
            let (buf, x) = rep_zero_data(s1.buffer1, s1.x, nz, Seq::empty(), s1.repeat);
            let s2 = PState { buffer1: buf, x: x, repeat: 1, ..s1 };
            Option::Some(flush_spec(s2))
        } else if 0xA0 <= op && op < 0xC0 {
            // Repeat the next opcode.
            Option::Some(PState { repeat: op as int % 32, ..s1 })
        } else if op == 0x80 {
            // Uncompressed rows, read once and written `repeat` times.
            if s1.i + s1.rowwidth > data.len() {
                Option::None
            } else {
                let src = data.subrange(s1.i, s1.i + s1.rowwidth);
                let (rows, y) = rep_raw_rows(
                    s1.rows,
                    s1.y,
                    s1.obyte,
                    src,
                    s1.repeat,
                    s1.rows.len() as int,
                );
                Option::Some(
                    PState {
                        x: 0,
                        rows: rows,
                        y: y,
                        repeat: 1,
                        i: s1.i + s1.rowwidth,
                        j: s1.j + s1.rowwidth,
                        ..s1
                    },
                )
            }
        } else if op == 0x81 {
            let (rows, y) = rep_fill_rows(
                s1.rows,
                s1.y,
                s1.obyte,
                s1.rowwidth,
                0,
                s1.repeat,
                s1.rows.len() as int,
            );
            Option::Some(PState { x: 0, rows: rows, y: y, repeat: 1, ..s1 })
        } else if op == 0x82 {
            let (rows, y) = rep_fill_rows(
                s1.rows,
                s1.y,
                s1.obyte,
                s1.rowwidth,
                0xFF,
                s1.repeat,
                s1.rows.len() as int,
            );
            Option::Some(PState { x: 0, rows: rows, y: y, repeat: 1, ..s1 })
        } else if op == 0x83 {
            // One operand byte: a fill pattern, remembered by row parity.
            if s1.i >= data.len() {
                Option::None
            } else {
                let v = data[s1.i];
                let (rows, pattern, y) = rep_pattern_store(
                    s1.rows,
                    s1.pattern,
                    v,
                    s1.y,
                    s1.obyte,
                    s1.rowwidth,
                    s1.repeat,
                    s1.rows.len() as int,
                );
                Option::Some(
                    PState {
                        x: 0,
                        rows: rows,
                        pattern: pattern,
                        y: y,
                        repeat: 1,
                        i: s1.i + 1,
                        j: s1.j + 1,
                        ..s1
                    },
                )
            }
        } else if op == 0x84 {
            let (rows, y) = rep_pattern_fill(
                s1.rows,
                s1.pattern,
                s1.y,
                s1.obyte,
                s1.rowwidth,
                s1.repeat,
                s1.rows.len() as int,
            );
            Option::Some(PState { x: 0, rows: rows, y: y, repeat: 1, ..s1 })
        } else if op == 0x85 || op == 0x86 || op == 0x87 {
            let d = (op - 0x84) as int;
            let (rows, y) = rep_copy_rows(s1.rows, s1.y, d, s1.repeat, s1.rows.len() as int);
            Option::Some(PState { x: 0, rows: rows, y: y, repeat: 1, ..s1 })
        } else if op == 0x88 {
            Option::Some(PState { dx: 16, dy: 0, ..s1 })
        } else if op == 0x89 {
            Option::Some(PState { dx: 0, dy: 0, ..s1 })
        } else if op == 0x8A {
            Option::Some(PState { dx: 0, dy: 1, ..s1 })
        } else if op == 0x8B {
            Option::Some(PState { dx: 0, dy: 2, ..s1 })
        } else if op == 0x8C {
            Option::Some(PState { dx: 1, dy: 0, ..s1 })
        } else if op == 0x8D {
            Option::Some(PState { dx: 1, dy: 1, ..s1 })
        } else if op == 0x8E {
            Option::Some(PState { dx: 2, dy: 2, ..s1 })
        } else if op == 0x8F {
            Option::Some(PState { dx: 8, dy: 0, ..s1 })
        } else {
            // Not a repeat or a whole row: the flush rule alone.
            Option::Some(flush_spec(s1))
        }
    }
}

/// The state after the whole plane stream is consumed, or `None` when the
/// stream ended where a byte was owed.
pub open spec fn run_spec(s: PState, data: Seq<u8>) -> Option<PState>
    decreases s.len - s.j,
{
    if s.j >= s.len {
        Option::Some(s)
    } else {
        match step_spec(s, data) {
            Option::None => Option::None,
            Option::Some(s2) => {
                if s2.j >= s2.len {
                    Option::Some(s2)
                } else if s2.j > s.j && s2.len == s.len {
                    run_spec(s2, data)
                } else {
                    // Unreachable: every opcode consumes at least one byte.
                    Option::None
                }
            },
        }
    }
}

} // verus!

verus! {

/// The views of a plane's rows.
pub open spec fn rows_view(rs: Seq<Vec<u8>>) -> Seq<Seq<u8>> {
    Seq::new(rs.len(), |k: int| rs[k]@)
}

/// Fills `n` bytes of row `y` from byte `o` with `v`, clipped to the row.
fn rows_fill(rows: &mut Vec<Vec<u8>>, y: usize, o: usize, n: usize, v: u8)
    requires
        o <= 0x10000,
        n <= 0x10000,
    ensures
        rows_view(final (rows)@) == plane_fill(rows_view(old(rows)@), y as int, o as int, n as int, v),
        final (rows)@.len() == old(rows)@.len(),
        forall|k: int|
            0 <= k < old(rows)@.len() ==> (#[trigger] final (rows)@[k])@.len() == old(
                rows,
            )@[k]@.len(),
{
    if y < rows.len() {
        let width = rows[y].len();
        let mut nr: Vec<u8> = Vec::new();
        let mut t: usize = 0;
        while t < width
            invariant
                t <= width,
                o <= 0x10000,
                n <= 0x10000,
                y < rows@.len(),
                width == rows@[y as int]@.len(),
                nr@.len() == t,
                forall|j: int|
                    0 <= j < t ==> nr@[j] == (if o <= j < o + n {
                        v
                    } else {
                        rows@[y as int]@[j]
                    }),
            decreases width - t,
        {
            if o <= t && t < o + n {
                nr.push(v);
            } else {
                nr.push(rows[y][t]);
            }
            t = t + 1;
        }
        proof {
            assert(nr@ =~= filled_clipped(rows@[y as int]@, o as int, n as int, v));
        }
        rows.set(y, nr);
        proof {
            assert(rows_view(rows@) =~= plane_fill(
                rows_view(old(rows)@),
                y as int,
                o as int,
                n as int,
                v,
            ));
        }
    } else {
        proof {
            assert(rows_view(rows@) =~= plane_fill(
                rows_view(old(rows)@),
                y as int,
                o as int,
                n as int,
                v,
            ));
        }
    }
}

/// Writes `src` into row `y` from byte `o`, clipped to the row.
fn rows_write(rows: &mut Vec<Vec<u8>>, y: usize, o: usize, src: &[u8])
    requires
        o <= 0x10000,
        src@.len() <= 0x10000,
    ensures
        rows_view(final (rows)@) == plane_write(rows_view(old(rows)@), y as int, o as int, src@),
        final (rows)@.len() == old(rows)@.len(),
        forall|k: int|
            0 <= k < old(rows)@.len() ==> (#[trigger] final (rows)@[k])@.len() == old(
                rows,
            )@[k]@.len(),
{
    if y < rows.len() {
        let width = rows[y].len();
        let mut nr: Vec<u8> = Vec::new();
        let mut t: usize = 0;
        while t < width
            invariant
                t <= width,
                o <= 0x10000,
                src@.len() <= 0x10000,
                y < rows@.len(),
                width == rows@[y as int]@.len(),
                nr@.len() == t,
                forall|j: int|
                    0 <= j < t ==> nr@[j] == (if o <= j < o + src@.len() && 0 <= j - o < src@.len() {
                        src@[j - o]
                    } else {
                        rows@[y as int]@[j]
                    }),
            decreases width - t,
        {
            if o <= t && t - o < src.len() {
                nr.push(src[t - o]);
            } else {
                nr.push(rows[y][t]);
            }
            t = t + 1;
        }
        proof {
            assert(nr@ =~= copied_clipped(rows@[y as int]@, o as int, src@, 0, src@.len() as int));
        }
        rows.set(y, nr);
        proof {
            assert(rows_view(rows@) =~= plane_write(
                rows_view(old(rows)@),
                y as int,
                o as int,
                src@,
            ));
        }
    } else {
        proof {
            assert(rows_view(rows@) =~= plane_write(
                rows_view(old(rows)@),
                y as int,
                o as int,
                src@,
            ));
        }
    }
}

/// Replaces row `y` with the row `d` rows back; a source above the plane
/// reads as zeros.
fn rows_copy_back(rows: &mut Vec<Vec<u8>>, y: usize, d: usize, rowbytes: usize)
    requires
        forall|k: int| 0 <= k < old(rows)@.len() ==> (#[trigger] old(rows)@[k])@.len() == rowbytes,
    ensures
        rows_view(final (rows)@) == plane_copy(rows_view(old(rows)@), y as int, y as int - d as int),
        final (rows)@.len() == old(rows)@.len(),
        forall|k: int|
            0 <= k < old(rows)@.len() ==> (#[trigger] final (rows)@[k])@.len() == old(
                rows,
            )@[k]@.len(),
{
    if y < rows.len() {
        let width = rows[y].len();
        let src_ok = d <= y;
        let mut nr: Vec<u8> = Vec::new();
        let mut t: usize = 0;
        while t < width
            invariant
                t <= width,
                y < rows@.len(),
                src_ok == (d <= y),
                width == rows@[y as int]@.len(),
                forall|k: int| 0 <= k < rows@.len() ==> (#[trigger] rows@[k])@.len() == rowbytes,
                width == rowbytes,
                src_ok ==> y - d < rows@.len(),
                nr@.len() == t,
                forall|j: int|
                    0 <= j < t ==> nr@[j] == (if src_ok {
                        rows@[y - d]@[j]
                    } else {
                        0u8
                    }),
            decreases width - t,
        {
            if src_ok {
                nr.push(rows[y - d][t]);
            } else {
                nr.push(0);
            }
            t = t + 1;
        }
        proof {
            if src_ok {
                assert(nr@ =~= rows_view(rows@)[y - d]);
            } else {
                assert(nr@ =~= zero_row(width as int));
            }
        }
        rows.set(y, nr);
        proof {
            assert(rows_view(rows@) =~= plane_copy(
                rows_view(old(rows)@),
                y as int,
                y as int - d as int,
            ));
        }
    } else {
        proof {
            assert(rows_view(rows@) =~= plane_copy(
                rows_view(old(rows)@),
                y as int,
                y as int - d as int,
            ));
        }
    }
}

/// Reads `n` bytes of the row `d` rows above `y` from byte `o`; positions
/// outside the plane read as zeros.
fn rows_read_back(rows: &Vec<Vec<u8>>, y: usize, d: usize, o: usize, n: usize) -> (r: Vec<u8>)
    requires
        o <= 0x10000,
        n <= 0x10000,
    ensures
        r@ == plane_read(rows_view(rows@), y as int - d as int, o as int, n as int),
{
    let src_ok = d <= y && y - d < rows.len();
    let mut nr: Vec<u8> = Vec::new();
    let mut t: usize = 0;
    while t < n
        invariant
            t <= n,
            o <= 0x10000,
            n <= 0x10000,
            src_ok == (d <= y && y - d < rows@.len()),
            nr@.len() == t,
            forall|j: int|
                0 <= j < t ==> nr@[j] == (if src_ok && o + j < rows@[y - d]@.len() {
                    rows@[y - d]@[o + j]
                } else {
                    0u8
                }),
        decreases n - t,
    {
        if src_ok && o + t < rows[y - d].len() {
            nr.push(rows[y - d][o + t]);
        } else {
            nr.push(0);
        }
        t = t + 1;
    }
    proof {
        assert(nr@ =~= plane_read(rows_view(rows@), y as int - d as int, o as int, n as int));
    }
    nr
}

/// The running state of one plane's decode.
pub struct PlaneDecoder {
    pub x: usize,
    pub y: usize,
    pub dx: usize,
    pub dy: usize,
    pub repeat: u8,
    pub obyte: usize,
    pub rowwidth: usize,
    pub rowbytes: usize,
    pub pattern: CBuf,
    pub buffer1: CBuf,
    pub buffer2: CBuf,
    pub rows: Vec<Vec<u8>>,
    pub i: usize,
    pub j: u64,
    pub len: u64,
}

impl PlaneDecoder {
    /// The decoder's mathematical state.
    pub open spec fn v(&self) -> PState {
        PState {
            x: self.x as int,
            y: self.y as int,
            dx: self.dx as int,
            dy: self.dy as int,
            repeat: self.repeat as int,
            obyte: self.obyte as int,
            rowwidth: self.rowwidth as int,
            pattern: self.pattern@,
            buffer1: self.buffer1@,
            buffer2: self.buffer2@,
            rows: rows_view(self.rows@),
            i: self.i as int,
            j: self.j as int,
            len: self.len as int,
        }
    }

    /// The decoder's invariant.
    pub open spec fn inv(&self) -> bool {
        wf(self.v(), self.rowbytes as int)
    }
}

} // verus!

verus! {

impl PlaneDecoder {
    /// Applies the zero-run-then-data rule `repeat` times and rearms the
    /// repeat count.
    fn do_zero_data(&mut self, nz: usize, src: &[u8])
        requires
            old(self).inv(),
            nz <= 0x10000,
            src@.len() <= 0x10000,
        ensures
            final (self).inv(),
            final (self).rowbytes == old(self).rowbytes,
            final (self).v() == (PState {
                buffer1: rep_zero_data(
                    old(self).v().buffer1,
                    old(self).v().x,
                    nz as int,
                    src@,
                    old(self).v().repeat,
                ).0,
                x: rep_zero_data(
                    old(self).v().buffer1,
                    old(self).v().x,
                    nz as int,
                    src@,
                    old(self).v().repeat,
                ).1,
                repeat: 1,
                ..old(self).v()
            }),
    {
        let ghost s0 = self.v();
        let mut r: u8 = self.repeat;
        while r > 0
            invariant
                self.inv(),
                self.rowbytes == old(self).rowbytes,
                nz <= 0x10000,
                src@.len() <= 0x10000,
                r <= 31,
                rep_zero_data(self.v().buffer1, self.v().x, nz as int, src@, r as int)
                    == rep_zero_data(s0.buffer1, s0.x, nz as int, src@, s0.repeat),
                self.v() == (PState { buffer1: self.v().buffer1, x: self.v().x, ..s0 }),
            decreases r,
        {
            self.buffer1.fill(self.x, nz, 0);
            self.x = if self.x + nz < self.rowwidth {
                self.x + nz
            } else {
                self.rowwidth
            };
            self.buffer1.memcpy_char(self.x, src, 0, src.len());
            self.x = if self.x + src.len() < self.rowwidth {
                self.x + src.len()
            } else {
                self.rowwidth
            };
            r = r - 1;
        }
        self.repeat = 1;
    }

    /// One saturating row advance.
    fn advance_row(&mut self)
        requires
            old(self).y <= old(self).rows@.len(),
            old(self).rows@.len() <= 0x10000,
        ensures
            final (self).y == sat_y(old(self).y as int, old(self).rows@.len() as int),
            *final (self) == (PlaneDecoder { y: final (self).y, ..*old(self) }),
    {
        if self.y + 1 > self.rows.len() {
            self.y = self.rows.len();
        } else {
            self.y = self.y + 1;
        }
    }

    /// Fills `repeat` rows with the byte `v` and rearms the repeat count.
    fn op_fill(&mut self, v: u8)
        requires
            old(self).inv(),
        ensures
            final (self).inv(),
            final (self).rowbytes == old(self).rowbytes,
            final (self).v() == (PState {
                x: 0,
                rows: rep_fill_rows(
                    old(self).v().rows,
                    old(self).v().y,
                    old(self).v().obyte,
                    old(self).v().rowwidth,
                    v,
                    old(self).v().repeat,
                    old(self).v().rows.len() as int,
                ).0,
                y: rep_fill_rows(
                    old(self).v().rows,
                    old(self).v().y,
                    old(self).v().obyte,
                    old(self).v().rowwidth,
                    v,
                    old(self).v().repeat,
                    old(self).v().rows.len() as int,
                ).1,
                repeat: 1,
                ..old(self).v()
            }),
    {
        let ghost s0 = self.v();
        self.x = 0;
        let mut r: u8 = self.repeat;
        while r > 0
            invariant
                self.inv(),
                self.rowbytes == old(self).rowbytes,
                r <= 31,
                self.rows@.len() == s0.rows.len(),
                rep_fill_rows(
                    self.v().rows,
                    self.v().y,
                    s0.obyte,
                    s0.rowwidth,
                    v,
                    r as int,
                    s0.rows.len() as int,
                ) == rep_fill_rows(
                    s0.rows,
                    s0.y,
                    s0.obyte,
                    s0.rowwidth,
                    v,
                    s0.repeat,
                    s0.rows.len() as int,
                ),
                self.v() == (PState { x: 0, rows: self.v().rows, y: self.v().y, ..s0 }),
            decreases r,
        {
            rows_fill(&mut self.rows, self.y, self.obyte, self.rowwidth, v);
            self.advance_row();
            r = r - 1;
        }
        self.repeat = 1;
    }

    /// Writes `repeat` rows from the same raw bytes and rearms the repeat
    /// count.
    fn op_raw(&mut self, src: &[u8])
        requires
            old(self).inv(),
            src@.len() == old(self).rowwidth,
        ensures
            final (self).inv(),
            final (self).rowbytes == old(self).rowbytes,
            final (self).v() == (PState {
                x: 0,
                rows: rep_raw_rows(
                    old(self).v().rows,
                    old(self).v().y,
                    old(self).v().obyte,
                    src@,
                    old(self).v().repeat,
                    old(self).v().rows.len() as int,
                ).0,
                y: rep_raw_rows(
                    old(self).v().rows,
                    old(self).v().y,
                    old(self).v().obyte,
                    src@,
                    old(self).v().repeat,
                    old(self).v().rows.len() as int,
                ).1,
                repeat: 1,
                ..old(self).v()
            }),
    {
        let ghost s0 = self.v();
        self.x = 0;
        let mut r: u8 = self.repeat;
        while r > 0
            invariant
                self.inv(),
                self.rowbytes == old(self).rowbytes,
                r <= 31,
                src@.len() == s0.rowwidth,
                self.rows@.len() == s0.rows.len(),
                rep_raw_rows(
                    self.v().rows,
                    self.v().y,
                    s0.obyte,
                    src@,
                    r as int,
                    s0.rows.len() as int,
                ) == rep_raw_rows(
                    s0.rows,
                    s0.y,
                    s0.obyte,
                    src@,
                    s0.repeat,
                    s0.rows.len() as int,
                ),
                self.v() == (PState { x: 0, rows: self.v().rows, y: self.v().y, ..s0 }),
            decreases r,
        {
            rows_write(&mut self.rows, self.y, self.obyte, src);
            self.advance_row();
            r = r - 1;
        }
        self.repeat = 1;
    }

    /// Fills `repeat` rows with the operand, storing it into the pattern
    /// memory slot of each row, and rearms the repeat count.
    fn op_pattern_store(&mut self, v: u8)
        requires
            old(self).inv(),
        ensures
            final (self).inv(),
            final (self).rowbytes == old(self).rowbytes,
            final (self).v() == (PState {
                x: 0,
                rows: rep_pattern_store(
                    old(self).v().rows,
                    old(self).v().pattern,
                    v,
                    old(self).v().y,
                    old(self).v().obyte,
                    old(self).v().rowwidth,
                    old(self).v().repeat,
                    old(self).v().rows.len() as int,
                ).0,
                pattern: rep_pattern_store(
                    old(self).v().rows,
                    old(self).v().pattern,
                    v,
                    old(self).v().y,
                    old(self).v().obyte,
                    old(self).v().rowwidth,
                    old(self).v().repeat,
                    old(self).v().rows.len() as int,
                ).1,
                y: rep_pattern_store(
                    old(self).v().rows,
                    old(self).v().pattern,
                    v,
                    old(self).v().y,
                    old(self).v().obyte,
                    old(self).v().rowwidth,
                    old(self).v().repeat,
                    old(self).v().rows.len() as int,
                ).2,
                repeat: 1,
                ..old(self).v()
            }),
    {
        let ghost s0 = self.v();
        self.x = 0;
        let mut r: u8 = self.repeat;
        while r > 0
            invariant
                self.inv(),
                self.rowbytes == old(self).rowbytes,
                r <= 31,
                self.rows@.len() == s0.rows.len(),
                rep_pattern_store(
                    self.v().rows,
                    self.v().pattern,
                    v,
                    self.v().y,
                    s0.obyte,
                    s0.rowwidth,
                    r as int,
                    s0.rows.len() as int,
                ) == rep_pattern_store(
                    s0.rows,
                    s0.pattern,
                    v,
                    s0.y,
                    s0.obyte,
                    s0.rowwidth,
                    s0.repeat,
                    s0.rows.len() as int,
                ),
                self.v() == (PState {
                    x: 0,
                    rows: self.v().rows,
                    pattern: self.v().pattern,
                    y: self.v().y,
                    ..s0
                }),
            decreases r,
        {
            self.pattern.set(self.y % 8, v);
            rows_fill(&mut self.rows, self.y, self.obyte, self.rowwidth, v);
            self.advance_row();
            r = r - 1;
        }
        self.repeat = 1;
    }

    /// Fills `repeat` rows from the pattern memory slot of each row and
    /// rearms the repeat count.
    fn op_pattern_fill(&mut self)
        requires
            old(self).inv(),
        ensures
            final (self).inv(),
            final (self).rowbytes == old(self).rowbytes,
            final (self).v() == (PState {
                x: 0,
                rows: rep_pattern_fill(
                    old(self).v().rows,
                    old(self).v().pattern,
                    old(self).v().y,
                    old(self).v().obyte,
                    old(self).v().rowwidth,
                    old(self).v().repeat,
                    old(self).v().rows.len() as int,
                ).0,
                y: rep_pattern_fill(
                    old(self).v().rows,
                    old(self).v().pattern,
                    old(self).v().y,
                    old(self).v().obyte,
                    old(self).v().rowwidth,
                    old(self).v().repeat,
                    old(self).v().rows.len() as int,
                ).1,
                repeat: 1,
                ..old(self).v()
            }),
    {
        let ghost s0 = self.v();
        self.x = 0;
        let mut r: u8 = self.repeat;
        while r > 0
            invariant
                self.inv(),
                self.rowbytes == old(self).rowbytes,
                r <= 31,
                self.rows@.len() == s0.rows.len(),
                self.v().pattern == s0.pattern,
                rep_pattern_fill(
                    self.v().rows,
                    s0.pattern,
                    self.v().y,
                    s0.obyte,
                    s0.rowwidth,
                    r as int,
                    s0.rows.len() as int,
                ) == rep_pattern_fill(
                    s0.rows,
                    s0.pattern,
                    s0.y,
                    s0.obyte,
                    s0.rowwidth,
                    s0.repeat,
                    s0.rows.len() as int,
                ),
                self.v() == (PState { x: 0, rows: self.v().rows, y: self.v().y, ..s0 }),
            decreases r,
        {
            let v = self.pattern.get(self.y % 8);
            rows_fill(&mut self.rows, self.y, self.obyte, self.rowwidth, v);
            self.advance_row();
            r = r - 1;
        }
        self.repeat = 1;
    }

    /// Copies `repeat` rows, each from the row `d` back, and rearms the
    /// repeat count.
    fn op_copy(&mut self, d: usize)
        requires
            old(self).inv(),
            1 <= d <= 3,
        ensures
            final (self).inv(),
            final (self).rowbytes == old(self).rowbytes,
            final (self).v() == (PState {
                x: 0,
                rows: rep_copy_rows(
                    old(self).v().rows,
                    old(self).v().y,
                    d as int,
                    old(self).v().repeat,
                    old(self).v().rows.len() as int,
                ).0,
                y: rep_copy_rows(
                    old(self).v().rows,
                    old(self).v().y,
                    d as int,
                    old(self).v().repeat,
                    old(self).v().rows.len() as int,
                ).1,
                repeat: 1,
                ..old(self).v()
            }),
    {
        let ghost s0 = self.v();
        self.x = 0;
        let mut r: u8 = self.repeat;
        while r > 0
            invariant
                self.inv(),
                self.rowbytes == old(self).rowbytes,
                r <= 31,
                self.rows@.len() == s0.rows.len(),
                rep_copy_rows(self.v().rows, self.v().y, d as int, r as int, s0.rows.len() as int)
                    == rep_copy_rows(s0.rows, s0.y, d as int, s0.repeat, s0.rows.len() as int),
                self.v() == (PState { x: 0, rows: self.v().rows, y: self.v().y, ..s0 }),
            decreases r,
        {
            proof {
                assert forall|k: int| 0 <= k < self.rows@.len() implies (#[trigger] self.rows@[k])@.len()
                    == self.rowbytes as int by {
                    assert(rows_view(self.rows@)[k].len() == self.rowbytes as int);
                }
            }
            rows_copy_back(&mut self.rows, self.y, d, self.rowbytes);
            self.advance_row();
            r = r - 1;
        }
        self.repeat = 1;
    }

    /// Flushes the row buffer to the plane when the cursor has reached the
    /// row's width, applying the horizontal-repeat and row-reference rules.
    fn do_flush(&mut self)
        requires
            old(self).inv(),
        ensures
            final (self).inv(),
            final (self).rowbytes == old(self).rowbytes,
            final (self).v() == flush_spec(old(self).v()),
    {
        let ghost s0 = self.v();
        if self.x >= self.rowwidth {
            if self.dx != 0 {
                self.buffer2.memcpy_buf(0, &self.buffer1, 0, self.rowwidth);
                proof {
                    assert(self.buffer2@ =~= s0.buffer1);
                }
                let k = self.rowwidth * 8 / self.dx;
                let ghost b1_0 = self.buffer1@;
                let ghost b2_0 = self.buffer2@;
                let mut ct: usize = 0;
                while ct < k
                    invariant
                        self.inv(),
                        self.rowbytes == old(self).rowbytes,
                        ct <= k,
                        self.v().dx == s0.dx,
                        s0.dx != 0,
                        rep_shift_xor(self.buffer1@, self.buffer2@, s0.dx, (k - ct) as int)
                            == rep_shift_xor(b1_0, b2_0, s0.dx, k as int),
                        self.v() == (PState {
                            buffer1: self.buffer1@,
                            buffer2: self.buffer2@,
                            ..s0
                        }),
                    decreases k - ct,
                {
                    self.buffer2.shiftnstr(0, self.rowwidth, self.dx as u16);
                    self.buffer1.xornstr_buf(0, &self.buffer2, 0, self.rowwidth);
                    ct = ct + 1;
                }
            }
            if self.dy != 0 {
                let readout = rows_read_back(
                    &self.rows,
                    self.y,
                    self.dy,
                    self.obyte,
                    self.rowwidth,
                );
                let rb = CBuf { data: readout };
                self.buffer1.xornstr_buf(0, &rb, 0, self.rowwidth);
                self.buffer2 = rb;
            }
            rows_write(&mut self.rows, self.y, self.obyte, self.buffer1.data.as_slice());
            self.advance_row();
            self.x = 0;
        }
    }
}

} // verus!

verus! {

/// One unfolding of [`run_spec`] after a successful step.
proof fn lemma_run_unfold(s: PState, s2: PState, data: Seq<u8>)
    requires
        s.j < s.len,
        step_spec(s, data) == Option::Some(s2),
        s2.j > s.j,
        s2.len == s.len,
    ensures
        s2.j >= s2.len ==> run_spec(s, data) == Option::Some(s2),
        s2.j < s2.len ==> run_spec(s, data) == run_spec(s2, data),
{
}

/// One unfolding of [`run_spec`] after a failed step.
proof fn lemma_run_none(s: PState, data: Seq<u8>)
    requires
        s.j < s.len,
        step_spec(s, data) is None,
    ensures
        run_spec(s, data) is None,
{
}

impl PlaneDecoder {
    /// Decodes one opcode of the plane's stream.
    pub fn step(&mut self, data: &[u8]) -> (r: Result<(), StackError>)
        requires
            old(self).inv(),
            data@.len() < 0x100000000,
            old(self).v().j < old(self).v().len,
        ensures
            step_spec(old(self).v(), data@) is None ==> r == Err::<(), StackError>(
                StackError::OutOfBounds,
            ),
            step_spec(old(self).v(), data@) matches Some(s2) ==> (r == Ok::<(), StackError>(())
                && final (self).v() == s2 && final (self).inv() && final (self).rowbytes == old(
                self,
            ).rowbytes && final (self).v().j > old(self).v().j && final (self).v().len == old(
                self,
            ).v().len),
    {
        proof {
            reveal(step_spec);
        }
        let ghost s0 = self.v();
        if self.i >= data.len() {
            return Err(StackError::OutOfBounds);
        }
        let op = data[self.i];
        self.i = self.i + 1;
        self.j = self.j + 1;
        let ghost s1 = self.v();
        if op < 0x80 {
            let nd = (op / 16) as usize;
            let nz = (op % 16) as usize;
            if (self.i as u64) + (nd as u64) > data.len() as u64 {
                return Err(StackError::OutOfBounds);
            }
            let src = slice_subrange(data, self.i, self.i + nd);
            self.i = self.i + nd;
            self.j = self.j + (nd as u64);
            let ghost s2pre = self.v();
            self.do_zero_data(nz, src);
            self.do_flush();
            Ok(())
        } else if 0xC0 <= op && op < 0xE0 {
            let nd = ((op % 32) as usize) * 8;
            if (self.i as u64) + (nd as u64) > data.len() as u64 {
                return Err(StackError::OutOfBounds);
            }
            let src = slice_subrange(data, self.i, self.i + nd);
            self.i = self.i + nd;
            self.j = self.j + (nd as u64);
            self.do_zero_data(0, src);
            self.do_flush();
            Ok(())
        } else if op >= 0xE0 {
            let nz = ((op % 32) as usize) * 16;
            let src = slice_subrange(data, self.i, self.i);
            proof {
                assert(src@ =~= Seq::<u8>::empty());
            }
            self.do_zero_data(nz, src);
            self.do_flush();
            Ok(())
        } else if 0xA0 <= op && op < 0xC0 {
            self.repeat = op % 32;
            Ok(())
        } else if op == 0x80 {
            if (self.i as u64) + (self.rowwidth as u64) > data.len() as u64 {
                return Err(StackError::OutOfBounds);
            }
            let src = slice_subrange(data, self.i, self.i + self.rowwidth);
            self.op_raw(src);
            self.i = self.i + self.rowwidth;
            self.j = self.j + (self.rowwidth as u64);
            Ok(())
        } else if op == 0x81 {
            self.op_fill(0x00);
            Ok(())
        } else if op == 0x82 {
            self.op_fill(0xFF);
            Ok(())
        } else if op == 0x83 {
            if self.i >= data.len() {
                return Err(StackError::OutOfBounds);
            }
            let v = data[self.i];
            self.i = self.i + 1;
            self.j = self.j + 1;
            self.op_pattern_store(v);
            Ok(())
        } else if op == 0x84 {
            self.op_pattern_fill();
            Ok(())
        } else if op == 0x85 {
            self.op_copy(1);
            Ok(())
        } else if op == 0x86 {
            self.op_copy(2);
            Ok(())
        } else if op == 0x87 {
            self.op_copy(3);
            Ok(())
        } else if op == 0x88 {
            self.dx = 16;
            self.dy = 0;
            Ok(())
        } else if op == 0x89 {
            self.dx = 0;
            self.dy = 0;
            Ok(())
        } else if op == 0x8A {
            self.dx = 0;
            self.dy = 1;
            Ok(())
        } else if op == 0x8B {
            self.dx = 0;
            self.dy = 2;
            Ok(())
        } else if op == 0x8C {
            self.dx = 1;
            self.dy = 0;
            Ok(())
        } else if op == 0x8D {
            self.dx = 1;
            self.dy = 1;
            Ok(())
        } else if op == 0x8E {
            self.dx = 2;
            self.dy = 2;
            Ok(())
        } else if op == 0x8F {
            self.dx = 8;
            self.dy = 0;
            Ok(())
        } else {
            self.do_flush();
            Ok(())
        }
    }

    /// Decodes the plane's whole stream: opcodes are consumed until the
    /// stream's declared byte budget is spent.
    #[verifier::rlimit(100)]
    pub fn run(&mut self, data: &[u8]) -> (r: Result<(), StackError>)
        requires
            old(self).inv(),
            data@.len() < 0x100000000,
        ensures
            run_spec(old(self).v(), data@) is None ==> r == Err::<(), StackError>(
                StackError::OutOfBounds,
            ),
            run_spec(old(self).v(), data@) matches Some(sf) ==> (r == Ok::<(), StackError>(())
                && final (self).v() == sf && final (self).inv() && final (self).rowbytes == old(
                self,
            ).rowbytes),
    {
        let ghost s0 = self.v();
        while self.j < self.len
            invariant
                self.inv(),
                self.rowbytes == old(self).rowbytes,
                data@.len() < 0x100000000,
                s0 == old(self).v(),
                run_spec(self.v(), data@) == run_spec(s0, data@),
            decreases (if self.v().j >= self.v().len {
                0int
            } else {
                self.v().len - self.v().j
            }),
        {
            let ghost scur = self.v();
            match self.step(data) {
                Ok(()) => {
                    proof {
                        lemma_run_unfold(scur, self.v(), data@);
                    }
                },
                Err(_) => {
                    proof {
                        lemma_run_none(scur, data@);
                    }
                    return Err(StackError::OutOfBounds);
                },
            }
        }
        proof {
            assert(run_spec(self.v(), data@) == Option::Some(self.v()));
        }
        Ok(())
    }
}

} // verus!

verus! {

/// A negative coordinate clamped to zero: it denotes nothing for a stored
/// plane.
pub open spec fn clamp0(v: int) -> int {
    if v < 0 {
        0
    } else {
        v
    }
}

/// A rectangle edge rounded up to the next multiple of 32 bits.
pub open spec fn round32(r: int) -> int {
    if r % 32 != 0 {
        r - r % 32 + 32
    } else {
        r
    }
}

/// The row-buffer width in bytes for a plane whose bound rectangle spans
/// `left..right`: the span from the 32-bit-aligned left edge to the rounded
/// right edge.
pub open spec fn rowwidth_of(left: int, right: int) -> int {
    let bx8 = clamp0(left) / 32 * 32;
    let rnd = round32(clamp0(right));
    if rnd > bx8 {
        (rnd - bx8) / 8
    } else {
        0
    }
}

/// The 50% grey checkerboard that the pattern memory starts with.
pub open spec fn init_pattern() -> Seq<u8> {
    seq![170u8, 85u8, 170u8, 85u8, 170u8, 85u8, 170u8, 85u8]
}

/// A plane of `height` zero rows.
pub open spec fn zero_rows(height: int, rowbytes: int) -> Seq<Seq<u8>> {
    Seq::new(height as nat, |k: int| zero_row(rowbytes))
}

/// The decoder's starting state for one plane whose bound rectangle has the
/// given top, left and right edges, reading the plane's stream of `len`
/// bytes at `i`.
pub open spec fn init_state(
    top: int,
    left: int,
    right: int,
    height: int,
    rowbytes: int,
    i: int,
    len: int,
) -> PState {
    PState {
        x: 0,
        y: min_int(clamp0(top), height),
        dx: 0,
        dy: 0,
        repeat: 1,
        obyte: clamp0(left) / 32 * 4,
        rowwidth: rowwidth_of(left, right),
        pattern: init_pattern(),
        buffer1: zero_row(rowwidth_of(left, right)),
        buffer2: zero_row(rowwidth_of(left, right)),
        rows: zero_rows(height, rowbytes),
        i: i,
        j: 0,
        len: len,
    }
}

impl PlaneDecoder {
    /// A decoder for one plane of `height` rows of `rowbytes` bytes, bound
    /// by the rectangle edges `top`, `left` and `right`, reading `len`
    /// bytes of stream at `i`.
    pub fn new(
        top: i16,
        left: i16,
        right: i16,
        height: usize,
        rowbytes: usize,
        i: usize,
        len: u32,
    ) -> (d: PlaneDecoder)
        requires
            height <= 0x10000,
            rowbytes <= 0x10000,
        ensures
            d.inv(),
            d.rowbytes == rowbytes,
            d.v() == init_state(top as int, left as int, right as int, height as int,
            rowbytes as int, i as int, len as int),
    {
        let top0: usize = if top < 0 {
            0
        } else {
            top as usize
        };
        let left0: usize = if left < 0 {
            0
        } else {
            left as usize
        };
        let right0: usize = if right < 0 {
            0
        } else {
            right as usize
        };
        let bx8 = left0 / 32 * 32;
        let rnd = if right0 % 32 != 0 {
            right0 - right0 % 32 + 32
        } else {
            right0
        };
        let rowwidth = if rnd > bx8 {
            (rnd - bx8) / 8
        } else {
            0
        };
        let mut pattern = CBuf::new_with_size(8);
        pattern.set(0, 170);
        pattern.set(1, 85);
        pattern.set(2, 170);
        pattern.set(3, 85);
        pattern.set(4, 170);
        pattern.set(5, 85);
        pattern.set(6, 170);
        pattern.set(7, 85);
        proof {
            assert(pattern@ =~= init_pattern());
        }
        let buffer1 = CBuf::new_with_size(rowwidth);
        let buffer2 = CBuf::new_with_size(rowwidth);
        let mut rows: Vec<Vec<u8>> = Vec::new();
        let mut k: usize = 0;
        while k < height
            invariant
                k <= height,
                rowbytes <= 0x10000,
                rows@.len() == k,
                forall|t: int| 0 <= t < k ==> (#[trigger] rows@[t])@ == zero_row(rowbytes as int),
            decreases height - k,
        {
            let mut row: Vec<u8> = Vec::new();
            let mut t: usize = 0;
            while t < rowbytes
                invariant
                    t <= rowbytes,
                    row@.len() == t,
                    forall|u: int| 0 <= u < t ==> row@[u] == 0u8,
                decreases rowbytes - t,
            {
                row.push(0);
                t = t + 1;
            }
            proof {
                assert(row@ =~= zero_row(rowbytes as int));
            }
            rows.push(row);
            k = k + 1;
        }
        let d = PlaneDecoder {
            x: 0,
            y: if top0 < height {
                top0
            } else {
                height
            },
            dx: 0,
            dy: 0,
            repeat: 1,
            obyte: left0 / 32 * 4,
            rowwidth,
            rowbytes,
            pattern,
            buffer1,
            buffer2,
            rows,
            i,
            j: 0,
            len: len as u64,
        };
        proof {
            assert(d.buffer1@ =~= zero_row(rowwidth_of(left as int, right as int)));
            assert(d.buffer2@ =~= zero_row(rowwidth_of(left as int, right as int)));
            assert(rows_view(d.rows@) =~= zero_rows(height as int, rowbytes as int));
        }
        d
    }
}

/// The mask plane that a plain mask rectangle denotes: rows `top..bottom`
/// carry `rw` bytes of ones at the row's start, when the span is positive.
pub open spec fn rect_mask_rows(
    height: int,
    rowbytes: int,
    top: int,
    bottom: int,
    rw: int,
) -> Seq<Seq<u8>> {
    Seq::new(
        height as nat,
        |k: int|
            if top <= k < bottom && rw > 0 {
                filled_clipped(zero_row(rowbytes), 0, rw, 0xFF)
            } else {
                zero_row(rowbytes)
            },
    )
}

/// A decoded WOBA picture: a bit-packed image plane, a mask plane of the
/// same dimensions, and the three header rectangles.
#[derive(Debug)]
pub struct Picture {
    pub width: usize,
    pub height: usize,
    pub rowbytes: usize,
    pub total_rect: (i16, i16, i16, i16),
    pub mask_rect: (i16, i16, i16, i16),
    pub image_rect: (i16, i16, i16, i16),
    pub bitmap: Vec<Vec<u8>>,
    pub mask: Vec<Vec<u8>>,
}

/// The mathematical value of a [`Picture`].
pub ghost struct PictureView {
    pub width: int,
    pub height: int,
    pub rowbytes: int,
    pub total_rect: (int, int, int, int),
    pub mask_rect: (int, int, int, int),
    pub image_rect: (int, int, int, int),
    pub bitmap: Seq<Seq<u8>>,
    pub mask: Seq<Seq<u8>>,
}

impl View for Picture {
    type V = PictureView;

    open spec fn view(&self) -> PictureView {
        PictureView {
            width: self.width as int,
            height: self.height as int,
            rowbytes: self.rowbytes as int,
            total_rect: (
                self.total_rect.0 as int,
                self.total_rect.1 as int,
                self.total_rect.2 as int,
                self.total_rect.3 as int,
            ),
            mask_rect: (
                self.mask_rect.0 as int,
                self.mask_rect.1 as int,
                self.mask_rect.2 as int,
                self.mask_rect.3 as int,
            ),
            image_rect: (
                self.image_rect.0 as int,
                self.image_rect.1 as int,
                self.image_rect.2 as int,
                self.image_rect.3 as int,
            ),
            bitmap: rows_view(self.bitmap@),
            mask: rows_view(self.mask@),
        }
    }
}

/// The plane dimension spanned by two clamped rectangle edges.
pub open spec fn dim_of(lo: int, hi: int) -> int {
    if clamp0(hi) > clamp0(lo) {
        clamp0(hi) - clamp0(lo)
    } else {
        0
    }
}

/// The mask phase of a WOBA stream: the decoded mask plane and the input
/// cursor where the picture stream begins, or `None` when the mask stream
/// ended where a byte was owed.
pub open spec fn mask_phase_spec(b: Seq<u8>, height: int, rowbytes: int) -> Option<
    (Seq<Seq<u8>>, int),
> {
    let mask_len = be_u32_at(b, 44);
    if mask_len != 0 {
        match run_spec(
            init_state(
                be_i16_at(b, 20),
                be_i16_at(b, 22),
                be_i16_at(b, 26),
                height,
                rowbytes,
                52,
                mask_len,
            ),
            b,
        ) {
            Option::None => Option::None,
            Option::Some(ms) => Option::Some((ms.rows, ms.i)),
        }
    } else if be_i16_at(b, 20) != 0 || be_i16_at(b, 22) != 0 || be_i16_at(b, 24) != 0 || be_i16_at(
        b,
        26,
    ) != 0 {
        // The mask is a plain rectangle.
        let ml = clamp0(be_i16_at(b, 22));
        let mr = clamp0(be_i16_at(b, 26));
        let rw = if mr > ml {
            (mr - ml) / 8
        } else {
            0
        };
        Option::Some(
            (
                rect_mask_rows(
                    height,
                    rowbytes,
                    clamp0(be_i16_at(b, 20)),
                    clamp0(be_i16_at(b, 24)),
                    rw,
                ),
                52,
            ),
        )
    } else {
        Option::Some((zero_rows(height, rowbytes), 52))
    }
}

/// True when the decoded bitmap plane doubles as the mask: the header
/// declares no mask stream and no mask rectangle.
pub open spec fn mask_follows_pixels(b: Seq<u8>) -> bool {
    be_u32_at(b, 44) == 0 && be_i16_at(b, 20) == 0 && be_i16_at(b, 22) == 0 && be_i16_at(b, 24)
        == 0 && be_i16_at(b, 26) == 0
}

/// The decoded value of the WOBA payload `b` (the bytes of a BMAP block
/// after its size, tag and id words), or `None` when a read would leave the
/// payload.
pub open spec fn decode_spec(b: Seq<u8>) -> Option<PictureView> {
    if b.len() < 52 {
        Option::None
    } else {
        let width = dim_of(be_i16_at(b, 14), be_i16_at(b, 18));
        let height = dim_of(be_i16_at(b, 12), be_i16_at(b, 16));
        let rowbytes = (width + 7) / 8;
        let pic_len = be_u32_at(b, 48);
        match mask_phase_spec(b, height, rowbytes) {
            Option::None => Option::None,
            Option::Some((mask_rows, i_next)) => {
                let pic_rows_or = if pic_len != 0 {
                    match run_spec(
                        init_state(
                            be_i16_at(b, 28),
                            be_i16_at(b, 30),
                            be_i16_at(b, 34),
                            height,
                            rowbytes,
                            i_next,
                            pic_len,
                        ),
                        b,
                    ) {
                        Option::None => Option::None,
                        Option::Some(ps) => Option::Some(ps.rows),
                    }
                } else {
                    Option::Some(zero_rows(height, rowbytes))
                };
                match pic_rows_or {
                    Option::None => Option::None,
                    Option::Some(pic_rows) => Option::Some(
                        PictureView {
                            width: width,
                            height: height,
                            rowbytes: rowbytes,
                            total_rect: (
                                be_i16_at(b, 12),
                                be_i16_at(b, 14),
                                be_i16_at(b, 16),
                                be_i16_at(b, 18),
                            ),
                            mask_rect: (
                                be_i16_at(b, 20),
                                be_i16_at(b, 22),
                                be_i16_at(b, 24),
                                be_i16_at(b, 26),
                            ),
                            image_rect: (
                                be_i16_at(b, 28),
                                be_i16_at(b, 30),
                                be_i16_at(b, 32),
                                be_i16_at(b, 34),
                            ),
                            bitmap: pic_rows,
                            mask: if mask_follows_pixels(b) {
                                pic_rows
                            } else {
                                mask_rows
                            },
                        },
                    ),
                }
            },
        }
    }
}

} // verus!

verus! {

/// Builds the mask plane that a plain mask rectangle denotes.
fn build_rect_mask(
    height: usize,
    rowbytes: usize,
    top: usize,
    bottom: usize,
    rw: usize,
) -> (r: Vec<Vec<u8>>)
    requires
        height <= 0x10000,
        rowbytes <= 0x10000,
        rw <= 0x10000,
    ensures
        rows_view(r@) == rect_mask_rows(height as int, rowbytes as int, top as int, bottom as int,
        rw as int),
{
    let mut rows: Vec<Vec<u8>> = Vec::new();
    let mut k: usize = 0;
    while k < height
        invariant
            k <= height,
            rowbytes <= 0x10000,
            rw <= 0x10000,
            rows@.len() == k,
            forall|t: int|
                0 <= t < k ==> (#[trigger] rows@[t])@ == (if top <= t < bottom && rw > 0 {
                    filled_clipped(zero_row(rowbytes as int), 0, rw as int, 0xFF)
                } else {
                    zero_row(rowbytes as int)
                }),
        decreases height - k,
    {
        let marked = top <= k && k < bottom && rw > 0;
        let mut row: Vec<u8> = Vec::new();
        let mut t: usize = 0;
        while t < rowbytes
            invariant
                t <= rowbytes,
                row@.len() == t,
                forall|u: int|
                    0 <= u < t ==> row@[u] == (if marked && u < rw {
                        0xFFu8
                    } else {
                        0u8
                    }),
            decreases rowbytes - t,
        {
            if marked && t < rw {
                row.push(0xFF);
            } else {
                row.push(0);
            }
            t = t + 1;
        }
        proof {
            if marked {
                assert(row@ =~= filled_clipped(zero_row(rowbytes as int), 0, rw as int, 0xFF));
            } else {
                assert(row@ =~= zero_row(rowbytes as int));
            }
        }
        rows.push(row);
        k = k + 1;
    }
    proof {
        assert(rows_view(rows@) =~= rect_mask_rows(
            height as int,
            rowbytes as int,
            top as int,
            bottom as int,
            rw as int,
        ));
    }
    rows
}

/// A plane of `height` zero rows, as a vector.
fn build_zero_rows(height: usize, rowbytes: usize) -> (r: Vec<Vec<u8>>)
    requires
        height <= 0x10000,
        rowbytes <= 0x10000,
    ensures
        rows_view(r@) == zero_rows(height as int, rowbytes as int),
{
    let r = build_rect_mask(height, rowbytes, 0, 0, 0);
    proof {
        assert(rows_view(r@) =~= zero_rows(height as int, rowbytes as int));
    }
    r
}

/// Decodes the WOBA payload `b`: the bytes of a BMAP block after its size,
/// tag and id words.  The mask plane is decoded first when the header
/// declares a mask stream; the image plane follows at whatever input byte
/// the mask stream ended on.  The payload length is bounded by the block
/// size field of the file format, a `u32`.
#[verifier::rlimit(100)]
pub fn decode(b: &[u8]) -> (r: Result<Picture, StackError>)
    requires
        b@.len() < 0x100000000,
    ensures
        decode_spec(b@) is None ==> r == Err::<Picture, StackError>(StackError::OutOfBounds),
        decode_spec(b@) matches Some(v) ==> (r matches Ok(p) && p@ == v),
{
    if b.len() < 52 {
        return Err(StackError::OutOfBounds);
    }
    let tt = crate::byte::i16_from_u8(slice_subrange(b, 12, 14));
    let tl = crate::byte::i16_from_u8(slice_subrange(b, 14, 16));
    let tb = crate::byte::i16_from_u8(slice_subrange(b, 16, 18));
    let tr = crate::byte::i16_from_u8(slice_subrange(b, 18, 20));
    let mt = crate::byte::i16_from_u8(slice_subrange(b, 20, 22));
    let ml = crate::byte::i16_from_u8(slice_subrange(b, 22, 24));
    let mb = crate::byte::i16_from_u8(slice_subrange(b, 24, 26));
    let mr = crate::byte::i16_from_u8(slice_subrange(b, 26, 28));
    let pt = crate::byte::i16_from_u8(slice_subrange(b, 28, 30));
    let pl = crate::byte::i16_from_u8(slice_subrange(b, 30, 32));
    let pb = crate::byte::i16_from_u8(slice_subrange(b, 32, 34));
    let pr = crate::byte::i16_from_u8(slice_subrange(b, 34, 36));
    let mask_len = crate::byte::u32_from_u8(slice_subrange(b, 44, 48));
    let pic_len = crate::byte::u32_from_u8(slice_subrange(b, 48, 52));
    let tl0: usize = if tl < 0 {
        0
    } else {
        tl as usize
    };
    let tr0: usize = if tr < 0 {
        0
    } else {
        tr as usize
    };
    let tt0: usize = if tt < 0 {
        0
    } else {
        tt as usize
    };
    let tb0: usize = if tb < 0 {
        0
    } else {
        tb as usize
    };
    let width: usize = if tr0 > tl0 {
        tr0 - tl0
    } else {
        0
    };
    let height: usize = if tb0 > tt0 {
        tb0 - tt0
    } else {
        0
    };
    let rowbytes: usize = (width + 7) / 8;
    // Mask phase.
    let (mask_rows, i_next): (Vec<Vec<u8>>, usize) = if mask_len != 0 {
        let mut md = PlaneDecoder::new(mt, ml, mr, height, rowbytes, 52, mask_len);
        match md.run(b) {
            Ok(()) => {},
            Err(e) => {
                return Err(e);
            },
        }
        let i_after = md.i;
        (md.rows, i_after)
    } else if mt != 0 || ml != 0 || mb != 0 || mr != 0 {
        let ml0: usize = if ml < 0 {
            0
        } else {
            ml as usize
        };
        let mr0: usize = if mr < 0 {
            0
        } else {
            mr as usize
        };
        let mt0: usize = if mt < 0 {
            0
        } else {
            mt as usize
        };
        let mb0: usize = if mb < 0 {
            0
        } else {
            mb as usize
        };
        let rw: usize = if mr0 > ml0 {
            (mr0 - ml0) / 8
        } else {
            0
        };
        (build_rect_mask(height, rowbytes, mt0, mb0, rw), 52)
    } else {
        (build_zero_rows(height, rowbytes), 52)
    };
    // Picture phase.
    let pic_rows: Vec<Vec<u8>> = if pic_len != 0 {
        let mut pd = PlaneDecoder::new(pt, pl, pr, height, rowbytes, i_next, pic_len);
        match pd.run(b) {
            Ok(()) => {},
            Err(e) => {
                return Err(e);
            },
        }
        pd.rows
    } else {
        build_zero_rows(height, rowbytes)
    };
    // Final rule: with no mask stream and no mask rectangle, the mask
    // follows the pixels.
    let follows = mask_len == 0 && mt == 0 && ml == 0 && mb == 0 && mr == 0;
    let mask: Vec<Vec<u8>> = if follows {
        clone_rows(&pic_rows)
    } else {
        mask_rows
    };
    let p = Picture {
        width,
        height,
        rowbytes,
        total_rect: (tt, tl, tb, tr),
        mask_rect: (mt, ml, mb, mr),
        image_rect: (pt, pl, pb, pr),
        bitmap: pic_rows,
        mask,
    };
    Ok(p)
}

/// Copies a plane row for row.
pub fn clone_rows(v: &Vec<Vec<u8>>) -> (r: Vec<Vec<u8>>)
    ensures
        rows_view(r@) == rows_view(v@),
{
    let mut r: Vec<Vec<u8>> = Vec::new();
    let mut k: usize = 0;
    while k < v.len()
        invariant
            k <= v@.len(),
            r@.len() == k,
            forall|t: int| 0 <= t < k ==> (#[trigger] r@[t])@ == v@[t]@,
        decreases v@.len() - k,
    {
        let src = &v[k];
        let mut row: Vec<u8> = Vec::new();
        let mut t: usize = 0;
        while t < src.len()
            invariant
                t <= src@.len(),
                row@.len() == t,
                forall|u: int| 0 <= u < t ==> row@[u] == src@[u],
            decreases src@.len() - t,
        {
            row.push(src[t]);
            t = t + 1;
        }
        proof {
            assert(row@ =~= src@);
        }
        r.push(row);
        k = k + 1;
    }
    proof {
        assert(rows_view(r@) =~= rows_view(v@));
    }
    r
}

/// Law: when a BMAP declares no mask stream and no mask rectangle, its
/// decoded mask plane equals its decoded bitmap plane.
pub proof fn lemma_mask_follows_pixels(b: Seq<u8>)
    requires
        decode_spec(b) is Some,
        mask_follows_pixels(b),
    ensures
        decode_spec(b)->Some_0.mask == decode_spec(b)->Some_0.bitmap,
{
}

/// Law: a repeat prefix of three applied to a white-row opcode writes three
/// consecutive all-zero rows at the current row cursor, leaving every other
/// row unchanged and advancing the cursor by three.
pub proof fn lemma_repeat_three_zero_rows(s: PState, data: Seq<u8>, rowbytes: int)
    requires
        wf(s, rowbytes),
        s.repeat == 1,
        s.j + 2 <= s.len,
        0 <= s.i,
        s.i + 1 < data.len(),
        data[s.i] == 0xA3,
        data[s.i + 1] == 0x81,
        s.y + 3 <= s.rows.len(),
        s.obyte == 0,
        s.rowwidth == rowbytes,
    ensures
        step_spec(s, data) is Some,
        step_spec(step_spec(s, data)->Some_0, data) matches Some(s2) && s2.y == s.y + 3
            && s2.rows.len() == s.rows.len() && (forall|k: int|
            s.y <= k < s.y + 3 ==> s2.rows[k] == zero_row(rowbytes)) && (forall|k: int|
            0 <= k < s.rows.len() && !(s.y <= k < s.y + 3) ==> s2.rows[k] == s.rows[k]),
{
    reveal(step_spec);
    let s1 = step_spec(s, data)->Some_0;
    assert(s1.repeat == 3 && s1.i == s.i + 1 && s1.y == s.y && s1.rows == s.rows);
    let height = s1.rows.len() as int;
    let r0 = s1.rows;
    let r1 = plane_fill(r0, s.y, 0, rowbytes, 0);
    let r2 = plane_fill(r1, s.y + 1, 0, rowbytes, 0);
    let r3 = plane_fill(r2, s.y + 2, 0, rowbytes, 0);
    assert(rep_fill_rows(r0, s.y, 0, rowbytes, 0u8, 3, height) == rep_fill_rows(
        r1,
        s.y + 1,
        0,
        rowbytes,
        0u8,
        2,
        height,
    ));
    assert(rep_fill_rows(r1, s.y + 1, 0, rowbytes, 0u8, 2, height) == rep_fill_rows(
        r2,
        s.y + 2,
        0,
        rowbytes,
        0u8,
        1,
        height,
    ));
    assert(rep_fill_rows(r2, s.y + 2, 0, rowbytes, 0u8, 1, height) == rep_fill_rows(
        r3,
        s.y + 3,
        0,
        rowbytes,
        0u8,
        0,
        height,
    ));
    assert(filled_clipped(r0[s.y], 0, rowbytes, 0) =~= zero_row(rowbytes));
    assert(filled_clipped(r1[s.y + 1], 0, rowbytes, 0) =~= zero_row(rowbytes));
    assert(filled_clipped(r2[s.y + 2], 0, rowbytes, 0) =~= zero_row(rowbytes));
}

} // verus!
