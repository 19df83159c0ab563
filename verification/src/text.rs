//! Text as a source: the tokens are the characters, the offsets the byte
//! indices at which their UTF-8 encodings begin.

use crate::input::{valid_offset, Input, SliceInput, StrInput};
use crate::span::SimpleSpan;
use core::ops::Range;
use vstd::prelude::*;
use vstd::string::StrSliceExecFns;
use vstd::string::StringSliceAdditionalSpecFns;
use vstd::utf8::*;

verus! {

/// The encoding of two runs of characters, one after the other, is the
/// encoding of the first followed by that of the second.
pub proof fn lemma_encode_concat(a: Seq<char>, b: Seq<char>)
    ensures
        encode_utf8(a + b) =~= encode_utf8(a) + encode_utf8(b),
    decreases a.len(),
{
    if a.len() == 0 {
        assert(a + b =~= b);
    } else {
        assert((a + b).drop_first() =~= a.drop_first() + b);
        lemma_encode_concat(a.drop_first(), b);
    }
}

/// Each character takes at least one byte.
pub proof fn lemma_encode_len(a: Seq<char>)
    ensures
        encode_utf8(a).len() >= a.len(),
    decreases a.len(),
{
    if a.len() > 0 {
        lemma_encode_len(a.drop_first());
    }
}

/// In the encoding of two runs of characters, the second begins at a
/// character boundary.
pub proof fn lemma_boundary_between(a: Seq<char>, b: Seq<char>)
    ensures
        is_char_boundary(encode_utf8(a + b), encode_utf8(a).len() as int),
    decreases a.len(),
{
    let bytes = encode_utf8(a + b);
    encode_utf8_valid_utf8(a + b);
    lemma_encode_concat(a, b);
    if a.len() > 0 {
        let rest = a.drop_first();
        assert((a + b).drop_first() =~= rest + b);
        encode_utf8_first_scalar(a + b);
        assert(pop_first_scalar(bytes) =~= encode_utf8(rest + b));
        lemma_boundary_between(rest, b);
        lemma_encode_len(a);
    }
}

/// What the bytes in front of and behind the `i`-th character of `s` encode.
pub proof fn lemma_split_at_char(s: Seq<char>, i: int)
    requires
        0 <= i <= s.len(),
    ensures
        ({
            let bytes = encode_utf8(s);
            let k = encode_utf8(s.take(i)).len() as int;
            &&& k <= bytes.len()
            &&& is_char_boundary(bytes, k)
            &&& bytes.subrange(0, k) =~= encode_utf8(s.take(i))
            &&& bytes.subrange(k, bytes.len() as int) =~= encode_utf8(s.skip(i))
            &&& decode_utf8(bytes.subrange(0, k)) == s.take(i)
        }),
{
    let p = s.take(i);
    let q = s.skip(i);
    let bytes = encode_utf8(s);
    let k = encode_utf8(p).len() as int;
    assert(s =~= p + q);
    lemma_encode_concat(p, q);
    lemma_boundary_between(p, q);
    encode_utf8_decode_utf8(p);
    assert(bytes =~= encode_utf8(p) + encode_utf8(q));
    assert(bytes.subrange(0, k) =~= encode_utf8(p));
    assert(bytes.subrange(k, bytes.len() as int) =~= encode_utf8(q));
}

/// A character boundary in the encoding of `s` lies behind a whole number of
/// its characters, and in front of it lies their encoding.
pub proof fn lemma_at_boundary(s: Seq<char>, offset: int)
    requires
        is_char_boundary(encode_utf8(s), offset),
    ensures
        ({
            let i = decode_utf8(encode_utf8(s).subrange(0, offset)).len() as int;
            &&& 0 <= offset <= encode_utf8(s).len()
            &&& 0 <= i <= s.len()
            &&& encode_utf8(s.take(i)).len() == offset
        }),
{
    let bytes = encode_utf8(s);
    encode_utf8_valid_utf8(s);
    encode_utf8_decode_utf8(s);
    let front = bytes.subrange(0, offset);
    valid_utf8_split(bytes, offset);
    decode_utf8_split(bytes, offset);
    decode_utf8_encode_utf8(front);
    let i = decode_utf8(front).len() as int;
    assert(s.take(i) =~= decode_utf8(front));
}

/// Two runs of characters with one encoding are one run.
pub proof fn lemma_encode_injective(a: Seq<char>, b: Seq<char>)
    requires
        encode_utf8(a) == encode_utf8(b),
    ensures
        a == b,
{
    encode_utf8_decode_utf8(a);
    encode_utf8_decode_utf8(b);
}

/// The number of bytes that the UTF-8 encoding of `c` takes.
pub fn utf8_width(c: char) -> (w: usize)
    ensures
        w == encode_scalar(c as u32).len(),
        1 <= w <= 4,
{
    let v = c as u32;
    if v < 0x80 {
        1
    } else if v < 0x800 {
        2
    } else if v < 0x10000 {
        3
    } else {
        4
    }
}

/// What follows in the encoding of `s` from the place of its first `i`
/// characters being read.
pub proof fn lemma_step(s: Seq<char>, i: int)
    requires
        0 <= i <= s.len(),
    ensures
        ({
            let bytes = encode_utf8(s);
            let k = encode_utf8(s.take(i)).len() as int;
            &&& k < bytes.len() <==> i < s.len()
            &&& i < s.len() ==> {
                &&& encode_utf8(s.take(i + 1)).len() == k + encode_scalar(s[i] as u32).len()
                &&& encode_utf8(s.take(i + 1)).len() <= bytes.len()
            }
        }),
{
    lemma_split_at_char(s, i);
    lemma_encode_len(s.skip(i));
    if i < s.len() {
        let one = seq![s[i]];
        assert(s.take(i + 1) =~= s.take(i) + one);
        lemma_encode_concat(s.take(i), one);
        assert(one.drop_first() =~= Seq::<char>::empty());
        assert(encode_utf8(one) =~= encode_scalar(s[i] as u32)) by {
            reveal_with_fuel(encode_utf8, 2);
        }
        lemma_split_at_char(s, i + 1);
    } else {
        assert(s.skip(i) =~= Seq::<char>::empty());
    }
}

impl<'a> Input<'a> for &'a str {
    type Offset = usize;

    type Token = char;

    type Span = SimpleSpan<usize>;

    open spec fn wf(&self) -> bool {
        true
    }

    open spec fn tokens(&self) -> Seq<char> {
        self@
    }

    open spec fn offset_at(&self, i: int) -> usize {
        encode_utf8(self@.take(i)).len() as usize
    }

    open spec fn position(&self, offset: usize) -> int {
        if is_char_boundary(self.spec_bytes(), offset as int) {
            decode_utf8(self.spec_bytes().subrange(0, offset as int)).len() as int
        } else {
            -1
        }
    }

    open spec fn spec_index_of(offset: usize) -> usize {
        offset
    }

    open spec fn spec_prev(offset: usize) -> usize {
        if offset == 0 {
            0
        } else {
            (offset - 1) as usize
        }
    }

    open spec fn is_span(&self, start: usize, end: usize, span: SimpleSpan<usize>) -> bool {
        span == (SimpleSpan { start, end })
    }

    fn start(&self) -> (offset: usize) {
        proof {
            encode_utf8_valid_utf8(self@);
            assert(self@.take(0) =~= Seq::<char>::empty());
            assert(self.spec_bytes().subrange(0, 0) =~= Seq::<u8>::empty());
        }
        0
    }

    fn next(&self, offset: usize) -> (r: (usize, Option<char>)) {
        let ghost i = self.position(offset);
        proof {
            lemma_at_boundary(self@, offset as int);
            lemma_split_at_char(self@, i);
            lemma_step(self@, i);
            if i < self@.len() {
                lemma_split_at_char(self@, i + 1);
            }
        }
        if offset < self.as_bytes().len() {
            let (_, rest) = self.split_at(offset);
            proof {
                lemma_encode_injective(rest@, self@.skip(i));
            }
            let c = rest.get_char(0);
            (offset + utf8_width(c), Some(c))
        } else {
            (offset, None)
        }
    }

    fn span(&self, range: Range<usize>) -> (span: SimpleSpan<usize>) {
        SimpleSpan { start: range.start, end: range.end }
    }

    fn prev(offset: usize) -> (r: usize) {
        offset.saturating_sub(1)
    }

    fn index_of(offset: usize) -> (i: usize) {
        offset
    }
}

/// The characters between two places in `s`, and the bytes that encode them.
pub proof fn lemma_stretch(s: Seq<char>, i: int, j: int)
    requires
        0 <= i <= j <= s.len(),
    ensures
        ({
            let bytes = encode_utf8(s);
            let from = encode_utf8(s.take(i)).len() as int;
            let to = encode_utf8(s.take(j)).len() as int;
            &&& from <= to <= bytes.len()
            &&& is_char_boundary(bytes.subrange(0, to), from)
            &&& bytes.subrange(from, to) =~= encode_utf8(s.subrange(i, j))
        }),
{
    let head = s.take(j);
    lemma_split_at_char(s, j);
    lemma_split_at_char(head, i);
    assert(head.take(i) =~= s.take(i));
    assert(head.skip(i) =~= s.subrange(i, j));
    let bytes = encode_utf8(s);
    let from = encode_utf8(s.take(i)).len() as int;
    let to = encode_utf8(head).len() as int;
    assert(bytes.subrange(0, to).subrange(from, to) =~= bytes.subrange(from, to));
}

impl<'a> SliceInput<'a> for &'a str {
    type Slice = &'a str;

    open spec fn is_slice(&self, from: int, to: int, slice: &'a str) -> bool {
        slice@ == self@.subrange(from, to)
    }

    fn slice(&self, range: Range<usize>) -> (slice: &'a str) {
        let ghost i = self.position(range.start);
        let ghost j = self.position(range.end);
        proof {
            lemma_at_boundary(self@, range.start as int);
            lemma_at_boundary(self@, range.end as int);
            lemma_split_at_char(self@, i);
            lemma_split_at_char(self@, j);
            lemma_stretch(self@, i, j);
        }
        let (head, _) = self.split_at(range.end);
        let (_, slice) = head.split_at(range.start);
        proof {
            let bytes = self.spec_bytes();
            let from = range.start as int;
            let to = range.end as int;
            assert(head.spec_bytes() =~= bytes.subrange(0, to));
            assert(slice.spec_bytes() =~= bytes.subrange(0, to).subrange(from, to));
            assert(bytes.subrange(0, to).subrange(from, to) =~= bytes.subrange(from, to));
            lemma_encode_injective(slice@, self@.subrange(i, j));
        }
        slice
    }

    fn slice_from(&self, from: usize) -> (slice: &'a str) {
        let ghost i = self.position(from);
        let ghost n = self@.len() as int;
        proof {
            lemma_at_boundary(self@, from as int);
            lemma_split_at_char(self@, i);
        }
        let (_, slice) = self.split_at(from);
        proof {
            lemma_encode_injective(slice@, self@.skip(i));
            assert(self@.skip(i) =~= self@.subrange(i, n));
        }
        slice
    }
}

impl<'a> StrInput<'a, char> for &'a str {

}

/// A span of a text names the bytes of the stretch it was made for: the slice
/// between the span's two ends is the slice between the two offsets, and its
/// encoding is what the text holds from the span's start to its end.
pub proof fn lemma_span_round_trip(
    text: &str,
    from: usize,
    to: usize,
    span: SimpleSpan<usize>,
    covered: &str,
)
    requires
        valid_offset(&text, from),
        valid_offset(&text, to),
        text.position(from) <= text.position(to),
        text.is_span(from, to, span),
        text.is_slice(text.position(span.start), text.position(span.end), covered),
    ensures
        text.is_slice(text.position(from), text.position(to), covered),
        covered.spec_bytes() == text.spec_bytes().subrange(span.start as int, span.end as int),
{
    let i = text.position(from);
    let j = text.position(to);
    lemma_at_boundary(text@, from as int);
    lemma_at_boundary(text@, to as int);
    lemma_split_at_char(text@, i);
    lemma_split_at_char(text@, j);
    lemma_stretch(text@, i, j);
}

} // verus!
