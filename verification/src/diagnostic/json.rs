//! Line and column positions of byte offsets, and the texts that describe
//! expected tokens, for diagnostic reports.

use crate::text::{
    append_str, byte_offset, char_width, chars_of, contains, contains_str, ends_with, ends_with_str,
    is_blank, str_is_blank, join, join_strings, string_of, string_views, trim, trim_str,
};
use vstd::prelude::*;

verus! {

/// Byte offsets at which lines begin in the first `n` characters of `cs`:
/// offset 0, then the offset just after each newline.
pub open spec fn line_starts(cs: Seq<char>, n: int) -> Seq<int>
    decreases n,
{
    if n <= 0 {
        seq![0]
    } else if cs[n - 1] == '\n' {
        line_starts(cs, n - 1).push(byte_offset(cs, n) as int)
    } else {
        line_starts(cs, n - 1)
    }
}

/// The index of the last entry of `s` that is at most `x` (0 when there is none).
pub open spec fn last_at_most(s: Seq<int>, x: int) -> int
    decreases s.len(),
{
    if s.len() <= 1 {
        0
    } else if s.last() <= x {
        s.len() - 1
    } else {
        last_at_most(s.drop_last(), x)
    }
}

/// A sequence that starts at 0, strictly increases, and stays at most `bound`.
pub open spec fn sorted_starts(s: Seq<int>, bound: int) -> bool {
    &&& s.len() > 0
    &&& s[0] == 0
    &&& forall|i: int, j: int| 0 <= i < j < s.len() ==> s[i] < s[j]
    &&& forall|i: int| 0 <= i < s.len() ==> #[trigger] s[i] <= bound
}

/// Where lines start in a source text, and the text's byte length.
#[derive(Debug, Clone)]
pub struct LineIndex {
    starts: Vec<usize>,
    len: usize,
}

impl LineIndex {
    /// The line start offsets.
    pub closed spec fn spec_starts(&self) -> Seq<int> {
        self.starts@.map_values(|v: usize| v as int)
    }

    /// The byte length of the indexed text.
    pub closed spec fn spec_len(&self) -> int {
        self.len as int
    }

    /// Line starts begin at 0, increase strictly and stay within the text.
    pub open spec fn wf(&self) -> bool {
        sorted_starts(self.spec_starts(), self.spec_len())
    }

    /// The 1-based line and column of an offset, the offset being clamped to the text.
    pub open spec fn spec_line_col(&self, offset: int) -> (int, int) {
        let clamped = if offset < self.spec_len() {
            offset
        } else {
            self.spec_len()
        };
        let idx = last_at_most(self.spec_starts(), clamped);
        (idx + 1, clamped - self.spec_starts()[idx] + 1)
    }

    /// Indexes the lines of `source`.
    pub fn new(source: &str) -> (r: LineIndex)
        ensures
            r.wf(),
            r.spec_starts() == line_starts(source@, source@.len() as int),
            r.spec_len() == vstd::utf8::encode_utf8(source@).len(),
    {
        let cs = chars_of(source);
        let bytes = source.as_bytes();
        let total = bytes.len();
        let ghost s = cs@;
        let mut starts: Vec<usize> = Vec::new();
        starts.push(0);
        let mut i: usize = 0;
        let mut b: usize = 0;
        proof {
            assert(s.take(0) =~= Seq::<char>::empty());
            assert(vstd::utf8::encode_utf8(Seq::<char>::empty()) =~= Seq::<u8>::empty());
            assert(starts@.map_values(|v: usize| v as int) =~= seq![0int]);
        }
        while i < cs.len()
            invariant
                s == cs@,
                s == source@,
                i <= cs.len(),
                b == byte_offset(s, i as int),
                total == vstd::utf8::encode_utf8(s).len(),
                starts@.map_values(|v: usize| v as int) == line_starts(s, i as int),
                sorted_starts(line_starts(s, i as int), b as int),
            decreases cs.len() - i,
        {
            proof {
                crate::text::lemma_byte_offset_step(s, i as int);
                crate::text::lemma_byte_offset_mono(s, i + 1, s.len() as int);
            }
            let c = cs[i];
            let nb = b + char_width(c);
            let ghost before = starts@.map_values(|v: usize| v as int);
            if c == '\n' {
                starts.push(nb);
                proof {
                    assert(starts@.map_values(|v: usize| v as int) =~= before.push(nb as int));
                }
            }
            i += 1;
            b = nb;
        }
        proof {
            crate::text::lemma_byte_offset_mono(s, s.len() as int, s.len() as int);
            assert(s.take(s.len() as int) =~= s);
        }
        LineIndex { starts, len: total }
    }

    /// The 1-based line and column of a byte offset; offsets past the end are
    /// clamped to the end of the text.
    pub fn line_col(&self, offset: usize) -> (r: (u32, u32))
        requires
            self.wf(),
            self.spec_len() < u32::MAX,
        ensures
            r.0 == self.spec_line_col(offset as int).0,
            r.1 == self.spec_line_col(offset as int).1,
    {
        let clamped = if offset < self.len {
            offset
        } else {
            self.len
        };
        let ghost s = self.spec_starts();
        // Binary search for the last start at most `clamped`.
        let mut lo: usize = 0;
        let mut hi: usize = self.starts.len();
        proof {
            lemma_last_at_most_props(s, clamped as int);
        }
        while lo + 1 < hi
            invariant
                self.wf(),
                s == self.spec_starts(),
                0 <= lo < hi <= s.len(),
                s[lo as int] <= clamped,
                hi < s.len() ==> s[hi as int] > clamped,
                lo <= last_at_most(s, clamped as int) < hi,
            decreases hi - lo,
        {
            let mid = lo + (hi - lo) / 2;
            if self.starts[mid] <= clamped {
                proof {
                    lemma_last_at_most_ge(s, clamped as int, mid as int);
                }
                lo = mid;
            } else {
                proof {
                    lemma_last_at_most_lt(s, clamped as int, mid as int);
                }
                hi = mid;
            }
        }
        proof {
            lemma_starts_ge_index(s, self.spec_len(), lo as int);
        }
        let line_start = self.starts[lo];
        ((lo as u32) + 1, ((clamped - line_start) as u32) + 1)
    }
}

proof fn lemma_last_at_most_props(s: Seq<int>, x: int)
    requires
        s.len() > 0,
        s[0] <= x,
    ensures
        0 <= last_at_most(s, x) < s.len(),
        s[last_at_most(s, x)] <= x,
        forall|k: int| last_at_most(s, x) < k < s.len() ==> s[k] > x,
    decreases s.len(),
{
    if s.len() > 1 && s.last() > x {
        let t = s.drop_last();
        lemma_last_at_most_props(t, x);
        assert forall|k: int| last_at_most(s, x) < k < s.len() implies s[k] > x by {
            if k < s.len() - 1 {
                assert(s[k] == t[k]);
            }
        }
    }
}

proof fn lemma_starts_ge_index(s: Seq<int>, bound: int, k: int)
    requires
        sorted_starts(s, bound),
        0 <= k < s.len(),
    ensures
        s[k] >= k,
    decreases k,
{
    if k > 0 {
        lemma_starts_ge_index(s, bound, k - 1);
        assert(s[k - 1] < s[k]);
    }
}

proof fn lemma_last_at_most_ge(s: Seq<int>, x: int, m: int)
    requires
        sorted_starts(s, s.last()),
        0 <= m < s.len(),
        s[m] <= x,
    ensures
        m <= last_at_most(s, x),
{
    lemma_last_at_most_props(s, x);
}

proof fn lemma_last_at_most_lt(s: Seq<int>, x: int, m: int)
    requires
        sorted_starts(s, s.last()),
        0 <= m < s.len(),
        s[m] > x,
        s[0] <= x,
    ensures
        last_at_most(s, x) < m,
{
    lemma_last_at_most_props(s, x);
    let l = last_at_most(s, x);
    if l >= m {
        if l > m {
            assert(s[m] < s[l]);
        }
    }
}

/// Lines and columns are counted from 1: every offset in the text, or past
/// its end, is reported at a line and a column of at least 1.
pub proof fn lemma_line_col_positive(index: LineIndex, offset: int)
    requires
        index.wf(),
        0 <= offset,
    ensures
        index.spec_line_col(offset).0 >= 1,
        index.spec_line_col(offset).1 >= 1,
{
    let s = index.spec_starts();
    let clamped = if offset < index.spec_len() {
        offset
    } else {
        index.spec_len()
    };
    assert(s[0] <= clamped);
    lemma_last_at_most_props(s, clamped);
}

/// The offset at which a line starts is reported as column 1 of that line.
pub proof fn lemma_line_col_of_line_start(index: LineIndex, k: int)
    requires
        index.wf(),
        0 <= k < index.spec_starts().len(),
    ensures
        index.spec_line_col(index.spec_starts()[k]) == (k + 1, 1int),
{
    let s = index.spec_starts();
    let x = s[k];
    assert(x <= index.spec_len());
    assert(s[0] <= x);
    lemma_last_at_most_props(s, x);
    let l = last_at_most(s, x);
    if l < k {
        assert(s[k] > x);
    }
    if l > k {
        assert(s[k] < s[l]);
    }
    assert(l == k);
}

/// The number of newline characters among the first `p` characters.
pub open spec fn newlines_before(cs: Seq<char>, p: int) -> nat
    decreases p,
{
    if p <= 0 {
        0
    } else {
        newlines_before(cs, p - 1) + if cs[p - 1] == '\n' {
            1nat
        } else {
            0nat
        }
    }
}

/// The character index at which the line holding position `p` begins: just
/// after the last newline before `p`, or 0 when there is none.
pub open spec fn line_begin(cs: Seq<char>, p: int) -> int
    decreases p,
{
    if p <= 0 {
        0
    } else if cs[p - 1] == '\n' {
        p
    } else {
        line_begin(cs, p - 1)
    }
}

proof fn lemma_byte_offset_strict(cs: Seq<char>, i: int, j: int)
    requires
        0 <= i < j <= cs.len(),
    ensures
        byte_offset(cs, i) < byte_offset(cs, j),
{
    crate::text::lemma_byte_offset_step(cs, i);
    assert(vstd::utf8::encode_scalar(cs[i] as u32).len() >= 1);
    crate::text::lemma_byte_offset_mono(cs, i + 1, j);
}

proof fn lemma_line_starts_shape(cs: Seq<char>, n: int)
    requires
        0 <= n <= cs.len(),
    ensures
        line_starts(cs, n).len() == newlines_before(cs, n) + 1,
        line_starts(cs, n).last() == byte_offset(cs, line_begin(cs, n)),
        0 <= line_begin(cs, n) <= n,
    decreases n,
{
    if n == 0 {
        assert(cs.take(0) =~= Seq::<char>::empty());
        assert(vstd::utf8::encode_utf8(Seq::<char>::empty()) =~= Seq::<u8>::empty());
    } else {
        lemma_line_starts_shape(cs, n - 1);
    }
}

proof fn lemma_line_starts_prefix(cs: Seq<char>, p: int, n: int)
    requires
        0 <= p <= n <= cs.len(),
    ensures
        newlines_before(cs, p) <= newlines_before(cs, n),
        forall|k: int|
            0 <= k < line_starts(cs, p).len() ==> #[trigger] line_starts(cs, n)[k] == line_starts(
                cs,
                p,
            )[k],
        forall|k: int|
            newlines_before(cs, p) < k < line_starts(cs, n).len() ==> #[trigger] line_starts(cs, n)[k]
                > byte_offset(cs, p),
    decreases n - p,
{
    lemma_line_starts_shape(cs, p);
    lemma_line_starts_shape(cs, n);
    if p < n {
        lemma_line_starts_prefix(cs, p, n - 1);
        lemma_line_starts_shape(cs, n - 1);
        if cs[n - 1] == '\n' {
            lemma_byte_offset_strict(cs, p, n);
        }
        assert forall|k: int| 0 <= k < line_starts(cs, p).len() implies #[trigger] line_starts(
            cs,
            n,
        )[k] == line_starts(cs, p)[k] by {
            assert(line_starts(cs, n - 1)[k] == line_starts(cs, p)[k]);
        }
        assert forall|k: int| newlines_before(cs, p) < k < line_starts(cs, n).len() implies #[trigger] line_starts(
            cs,
            n,
        )[k] > byte_offset(cs, p) by {
            if k < line_starts(cs, n - 1).len() {
                assert(line_starts(cs, n - 1)[k] > byte_offset(cs, p));
            }
        }
    }
}

/// The line of a position is one more than the number of newlines before it,
/// and its column one more than the bytes since the line began: for the
/// index of a text and the byte offset of its `p`-th character, `line_col`
/// gives `(1 + newlines_before(p), 1 + offset - offset of line_begin(p))`.
pub proof fn lemma_line_col_counts_newlines(source: Seq<char>, index: LineIndex, p: int)
    requires
        index.spec_starts() == line_starts(source, source.len() as int),
        index.spec_len() == vstd::utf8::encode_utf8(source).len(),
        index.wf(),
        0 <= p <= source.len(),
    ensures
        index.spec_line_col(byte_offset(source, p) as int) == (
            newlines_before(source, p) + 1int,
            byte_offset(source, p) - byte_offset(source, line_begin(source, p)) + 1,
        ),
{
    let s = index.spec_starts();
    let n = source.len() as int;
    let x = byte_offset(source, p) as int;
    crate::text::lemma_byte_offset_mono(source, p, n);
    lemma_line_starts_shape(source, p);
    lemma_line_starts_shape(source, n);
    lemma_line_starts_prefix(source, p, n);
    let q = newlines_before(source, p) as int;
    assert(s[q] == line_starts(source, p)[q]);
    assert(s[q] == byte_offset(source, line_begin(source, p)));
    crate::text::lemma_byte_offset_mono(source, line_begin(source, p), p);
    assert(s[0] <= x);
    lemma_last_at_most_props(s, x);
    let l = last_at_most(s, x);
    if l < q {
        assert(s[q] > x);
    }
    if l > q {
        assert(s[l] > x);
    }
    assert(l == q);
}

/// The number of newline bytes (`b'\n'`) in `bs`.
pub open spec fn newline_bytes(bs: Seq<u8>) -> nat
    decreases bs.len(),
{
    if bs.len() == 0 {
        0
    } else {
        newline_bytes(bs.drop_last()) + if bs.last() == 10u8 {
            1nat
        } else {
            0nat
        }
    }
}

/// The position just after the last newline byte of `bs`, or 0 when there is none.
pub open spec fn after_last_newline(bs: Seq<u8>) -> int
    decreases bs.len(),
{
    if bs.len() == 0 {
        0
    } else if bs.last() == 10u8 {
        bs.len() as int
    } else {
        after_last_newline(bs.drop_last())
    }
}

proof fn lemma_scalar_newline_bytes(c: char)
    ensures
        vstd::utf8::encode_scalar(c as u32).len() >= 1,
        c == '\n' ==> vstd::utf8::encode_scalar(c as u32) =~= seq![10u8],
        c != '\n' ==> forall|k: int|
            0 <= k < vstd::utf8::encode_scalar(c as u32).len() ==> #[trigger] vstd::utf8::encode_scalar(
                c as u32,
            )[k] != 10u8,
{
    let v = c as u32;
    assert(v <= 0x10FFFF);
    if v <= 0x7F {
        assert(v <= 0x7F ==> ((v & 0x7F) as u8) as u32 == v) by (bit_vector);
        assert(c == '\n' <==> v == 10);
    } else if v <= 0x7FF {
        assert(0xC0u8 | (((v >> 6u32) & 0x1Fu32) as u8) != 10u8) by (bit_vector);
        assert(0x80u8 | ((v & 0x3Fu32) as u8) != 10u8) by (bit_vector);
    } else if v <= 0xFFFF {
        assert(0xE0u8 | (((v >> 12u32) & 0x0Fu32) as u8) != 10u8) by (bit_vector);
        assert(0x80u8 | (((v >> 6u32) & 0x3Fu32) as u8) != 10u8) by (bit_vector);
        assert(0x80u8 | ((v & 0x3Fu32) as u8) != 10u8) by (bit_vector);
    } else {
        assert(0xF0u8 | (((v >> 18u32) & 0x7u32) as u8) != 10u8) by (bit_vector);
        assert(0x80u8 | (((v >> 12u32) & 0x3Fu32) as u8) != 10u8) by (bit_vector);
        assert(0x80u8 | (((v >> 6u32) & 0x3Fu32) as u8) != 10u8) by (bit_vector);
        assert(0x80u8 | ((v & 0x3Fu32) as u8) != 10u8) by (bit_vector);
    }
}

proof fn lemma_append_no_newline(a: Seq<u8>, b: Seq<u8>)
    requires
        forall|k: int| 0 <= k < b.len() ==> #[trigger] b[k] != 10u8,
    ensures
        newline_bytes(a + b) == newline_bytes(a),
        after_last_newline(a + b) == after_last_newline(a),
    decreases b.len(),
{
    if b.len() == 0 {
        assert(a + b =~= a);
    } else {
        let c = b.drop_last();
        assert(forall|k: int| 0 <= k < c.len() ==> #[trigger] c[k] == b[k]);
        lemma_append_no_newline(a, c);
        assert((a + b).drop_last() =~= a + c);
        assert((a + b).last() == b.last());
        assert(b.last() == b[b.len() - 1]);
    }
}

/// The encoding of the first `k` characters holds as many newline bytes as
/// there are newline characters among them, and its last newline byte ends
/// where the line of position `k` begins.
proof fn lemma_prefix_newline_bytes(cs: Seq<char>, k: int)
    requires
        0 <= k <= cs.len(),
    ensures
        newline_bytes(vstd::utf8::encode_utf8(cs.take(k))) == newlines_before(cs, k),
        after_last_newline(vstd::utf8::encode_utf8(cs.take(k))) == byte_offset(cs, line_begin(cs, k)),
    decreases k,
{
    if k == 0 {
        assert(cs.take(0) =~= Seq::<char>::empty());
        assert(vstd::utf8::encode_utf8(Seq::<char>::empty()) =~= Seq::<u8>::empty());
    } else {
        lemma_prefix_newline_bytes(cs, k - 1);
        let c = cs[k - 1];
        let a = vstd::utf8::encode_utf8(cs.take(k - 1));
        let e = vstd::utf8::encode_scalar(c as u32);
        assert(cs.take(k) =~= cs.take(k - 1) + seq![c]);
        crate::text::lemma_encode_utf8_concat(cs.take(k - 1), seq![c]);
        assert(seq![c].drop_first() =~= Seq::<char>::empty());
        assert(vstd::utf8::encode_utf8(Seq::<char>::empty()) =~= Seq::<u8>::empty());
        assert(vstd::utf8::encode_utf8(seq![c]) =~= e);
        assert(vstd::utf8::encode_utf8(cs.take(k)) =~= a + e);
        lemma_scalar_newline_bytes(c);
        if c == '\n' {
            assert((a + e).drop_last() =~= a);
            assert((a + e).last() == 10u8);
            assert(byte_offset(cs, k) == (a + e).len());
        } else {
            lemma_append_no_newline(a, e);
        }
    }
}

/// The bytes of a text up to a byte position inside its `k`-th character
/// hold what the encoding of the first `k` characters holds, followed by a
/// part of that character's encoding.
proof fn lemma_bytes_take_within(cs: Seq<char>, k: int, x: int)
    requires
        0 <= k < cs.len(),
        byte_offset(cs, k) <= x < byte_offset(cs, k + 1),
    ensures
        vstd::utf8::encode_utf8(cs).take(x) =~= vstd::utf8::encode_utf8(cs.take(k))
            + vstd::utf8::encode_scalar(cs[k] as u32).take(x - byte_offset(cs, k)),
{
    let a = vstd::utf8::encode_utf8(cs.take(k));
    let e = vstd::utf8::encode_scalar(cs[k] as u32);
    assert(cs =~= cs.take(k) + (seq![cs[k]] + cs.skip(k + 1)));
    crate::text::lemma_encode_utf8_concat(cs.take(k), seq![cs[k]] + cs.skip(k + 1));
    crate::text::lemma_encode_utf8_concat(seq![cs[k]], cs.skip(k + 1));
    assert(seq![cs[k]].drop_first() =~= Seq::<char>::empty());
    assert(vstd::utf8::encode_utf8(Seq::<char>::empty()) =~= Seq::<u8>::empty());
    assert(vstd::utf8::encode_utf8(seq![cs[k]]) =~= e);
    crate::text::lemma_byte_offset_step(cs, k);
}

proof fn lemma_line_starts_after(cs: Seq<char>, p: int, n: int)
    requires
        0 <= p < n <= cs.len(),
    ensures
        forall|k: int|
            newlines_before(cs, p) < k < line_starts(cs, n).len() ==> #[trigger] line_starts(cs, n)[k]
                >= byte_offset(cs, p + 1),
    decreases n - p,
{
    lemma_line_starts_shape(cs, p);
    lemma_line_starts_shape(cs, n);
    lemma_line_starts_shape(cs, n - 1);
    if n - 1 > p {
        lemma_line_starts_after(cs, p, n - 1);
        crate::text::lemma_byte_offset_mono(cs, p + 1, n);
        assert forall|k: int| newlines_before(cs, p) < k < line_starts(cs, n).len() implies #[trigger] line_starts(
            cs,
            n,
        )[k] >= byte_offset(cs, p + 1) by {
            if k < line_starts(cs, n - 1).len() {
                assert(line_starts(cs, n)[k] == line_starts(cs, n - 1)[k]);
            }
        }
    }
}

/// A line and column counted in bytes: for a text's index and any offset,
/// the offset clamped to the text's byte length `p` stands on line one more
/// than the number of newline bytes before `p`, and at column one more than
/// the number of bytes between the last of those newlines and `p`.
pub proof fn lemma_line_col_counts_newline_bytes(source: Seq<char>, index: LineIndex, o: int)
    requires
        index.spec_starts() == line_starts(source, source.len() as int),
        index.spec_len() == vstd::utf8::encode_utf8(source).len(),
        index.wf(),
        0 <= o,
    ensures
        ({
            let bytes = vstd::utf8::encode_utf8(source);
            let p = if o < bytes.len() {
                o
            } else {
                bytes.len() as int
            };
            index.spec_line_col(o) == (
                newline_bytes(bytes.take(p)) + 1int,
                p - after_last_newline(bytes.take(p)) + 1,
            )
        }),
{
    let bytes = vstd::utf8::encode_utf8(source);
    let n = source.len() as int;
    let p = if o < bytes.len() {
        o
    } else {
        bytes.len() as int
    };
    assert(source.take(n) =~= source);
    let k = char_at_byte(source, p, 0);
    let s = index.spec_starts();
    lemma_line_starts_shape(source, k);
    lemma_line_starts_shape(source, n);
    lemma_line_starts_prefix(source, k, n);
    lemma_prefix_newline_bytes(source, k);
    let q = newlines_before(source, k) as int;
    assert(s[q] == line_starts(source, k)[q]);
    crate::text::lemma_byte_offset_mono(source, line_begin(source, k), k);
    if k < n {
        lemma_bytes_take_within(source, k, p);
        crate::text::lemma_byte_offset_step(source, k);
        let e = vstd::utf8::encode_scalar(source[k] as u32);
        let part = e.take(p - byte_offset(source, k));
        lemma_scalar_newline_bytes(source[k]);
        if source[k] == '\n' {
            assert(part =~= Seq::<u8>::empty());
        }
        assert(forall|j: int| 0 <= j < part.len() ==> #[trigger] part[j] == e[j]);
        lemma_append_no_newline(vstd::utf8::encode_utf8(source.take(k)), part);
        lemma_line_starts_after(source, k, n);
    } else {
        assert(bytes.take(p) =~= vstd::utf8::encode_utf8(source.take(k)));
    }
    lemma_last_at_most_props(s, p);
    let l = last_at_most(s, p);
    if l < q {
        assert(s[q] > p);
    }
    if l > q {
        assert(s[l] > p);
    }
    assert(l == q);
}

/// The character holding byte position `x`: the last `k` from `from` on
/// whose offset is at most `x`.
proof fn char_at_byte(cs: Seq<char>, x: int, from: int) -> (k: int)
    requires
        0 <= from <= cs.len(),
        byte_offset(cs, from) <= x <= vstd::utf8::encode_utf8(cs).len(),
    ensures
        from <= k <= cs.len(),
        byte_offset(cs, k) <= x,
        k == cs.len() || x < byte_offset(cs, k + 1),
        k == cs.len() ==> x == byte_offset(cs, k),
    decreases cs.len() - from,
{
    if from == cs.len() {
        assert(cs.take(from) =~= cs);
        from
    } else if x < byte_offset(cs, from + 1) {
        from
    } else {
        char_at_byte(cs, x, from + 1)
    }
}

// ---------------------------------------------------------------------------
// Expected tokens

pub open spec fn is_ascii_lower_letter(c: char) -> bool {
    'a' <= c <= 'z'
}

pub open spec fn is_ascii_upper(c: char) -> bool {
    'A' <= c <= 'Z'
}

/// The class of an expected token's label, as reports show it: blank labels
/// are tokens; labels naming identifiers or literals are classes; all
/// lowercase ASCII letters is a keyword; all uppercase ASCII letters is a
/// class; anything else is a token.
pub open spec fn expected_token_class(token: Seq<char>) -> Seq<char> {
    let t = trim(token);
    if t.len() == 0 {
        "token"@
    } else if contains(t, "identifier"@) || ends_with(t, "literal"@) || ends_with(t, "-literal"@) {
        "class"@
    } else if forall|i: int| 0 <= i < t.len() ==> is_ascii_lower_letter(#[trigger] t[i]) {
        "keyword"@
    } else if forall|i: int| 0 <= i < t.len() ==> is_ascii_upper(#[trigger] t[i]) {
        "class"@
    } else {
        "token"@
    }
}

fn all_chars_lower_letters(cs: &Vec<char>) -> (b: bool)
    ensures
        b == forall|i: int| 0 <= i < cs@.len() ==> is_ascii_lower_letter(#[trigger] cs@[i]),
{
    let mut i: usize = 0;
    while i < cs.len()
        invariant
            i <= cs.len(),
            forall|k: int| 0 <= k < i ==> is_ascii_lower_letter(#[trigger] cs@[k]),
        decreases cs.len() - i,
    {
        if !('a' <= cs[i] && cs[i] <= 'z') {
            return false;
        }
        i += 1;
    }
    true
}

fn all_chars_upper(cs: &Vec<char>) -> (b: bool)
    ensures
        b == forall|i: int| 0 <= i < cs@.len() ==> is_ascii_upper(#[trigger] cs@[i]),
{
    let mut i: usize = 0;
    while i < cs.len()
        invariant
            i <= cs.len(),
            forall|k: int| 0 <= k < i ==> is_ascii_upper(#[trigger] cs@[k]),
        decreases cs.len() - i,
    {
        if !('A' <= cs[i] && cs[i] <= 'Z') {
            return false;
        }
        i += 1;
    }
    true
}

/// Classifies an expected token's label: `token`, `class` or `keyword`.
pub fn classify_expected_token(token: &str) -> (s: &'static str)
    ensures
        s@ == expected_token_class(token@),
{
    let trimmed = trim_str(token);
    let t = trimmed.as_str();
    if t.is_empty() {
        "token"
    } else if contains_str(t, "identifier") || ends_with_str(t, "literal") || ends_with_str(
        t,
        "-literal",
    ) {
        "class"
    } else {
        let cs = chars_of(t);
        if all_chars_lower_letters(&cs) {
            "keyword"
        } else if all_chars_upper(&cs) {
            "class"
        } else {
            "token"
        }
    }
}

/// Each label between backquotes.
pub open spec fn quoted_tokens(s: Seq<Seq<char>>) -> Seq<Seq<char>> {
    s.map_values(|t: Seq<char>| "`"@ + t + "`"@)
}

/// The message of a diagnostic without one: the expected tokens, quoted and
/// joined with `、`, or a note that nothing here can be read.
pub open spec fn expected_message_text(tokens: Seq<Seq<char>>) -> Seq<char> {
    if tokens.len() == 0 {
        "ここで解釈可能な構文が見つかりません"@
    } else {
        "ここで"@ + join(quoted_tokens(tokens), "、"@) + "のいずれかが必要です"@
    }
}

pub fn default_expected_message(tokens: &Vec<String>) -> (r: String)
    ensures
        r@ == expected_message_text(string_views(tokens@)),
{
    if tokens.len() == 0 {
        return string_of("ここで解釈可能な構文が見つかりません");
    }
    let mut quoted: Vec<String> = Vec::new();
    let mut i: usize = 0;
    while i < tokens.len()
        invariant
            i <= tokens.len(),
            string_views(quoted@) =~= quoted_tokens(string_views(tokens@.take(i as int))),
        decreases tokens.len() - i,
    {
        let mut q = string_of("`");
        append_str(&mut q, tokens[i].as_str());
        append_str(&mut q, "`");
        let ghost prev = quoted@;
        quoted.push(q);
        proof {
            assert(string_views(quoted@) =~= string_views(prev).push(q@));
            assert(tokens@.take(i + 1) =~= tokens@.take(i as int).push(tokens@[i as int]));
            assert(string_views(tokens@.take(i + 1)) =~= string_views(tokens@.take(i as int)).push(
                tokens@[i as int]@,
            ));
        }
        i += 1;
    }
    assert(tokens@.take(tokens.len() as int) =~= tokens@);
    let mut r = string_of("ここで");
    append_str(&mut r, join_strings(&quoted, "、").as_str());
    append_str(&mut r, "のいずれかが必要です");
    r
}

/// The text when it is present and not blank.
pub fn non_blank_string(value: Option<&String>) -> (r: Option<String>)
    ensures
        r is Some <==> (value matches Some(t) && !is_blank(t@)),
        r matches Some(s) ==> value matches Some(t) && s@ == t@,
{
    match value {
        Some(text) => {
            if str_is_blank(text.as_str()) {
                None
            } else {
                Some(text.clone())
            }
        },
        None => None,
    }
}

/// The codes a diagnostic is reported under: its list of codes when that is
/// not empty, else its single code, else `unknown`.
pub open spec fn effective_codes_of(codes: Seq<Seq<char>>, code: Option<Seq<char>>) -> Seq<
    Seq<char>,
> {
    if codes.len() > 0 {
        codes
    } else {
        match code {
            Some(c) => seq![c],
            None => seq!["unknown"@],
        }
    }
}

pub fn effective_codes(codes: &Vec<String>, code: Option<&String>) -> (r: Vec<String>)
    ensures
        string_views(r@) == effective_codes_of(
            string_views(codes@),
            match code {
                Some(c) => Some(c@),
                None => None,
            },
        ),
{
    if codes.len() > 0 {
        let mut r: Vec<String> = Vec::new();
        let mut i: usize = 0;
        while i < codes.len()
            invariant
                i <= codes.len(),
                string_views(r@) =~= string_views(codes@.take(i as int)),
            decreases codes.len() - i,
        {
            let ghost prev = r@;
            r.push(codes[i].clone());
            proof {
                assert(string_views(r@) =~= string_views(prev).push(codes@[i as int]@));
                assert(codes@.take(i + 1) =~= codes@.take(i as int).push(codes@[i as int]));
            }
            i += 1;
        }
        assert(codes@.take(codes.len() as int) =~= codes@);
        r
    } else {
        let mut r: Vec<String> = Vec::new();
        match code {
            Some(c) => r.push(c.clone()),
            None => r.push(string_of("unknown")),
        }
        assert(string_views(r@) =~= seq![r@[0]@]);
        r
    }
}

} // verus!
