//! A source of tokens that come with their spans, read as a source of the
//! tokens alone.

use crate::input::{valid_offset, BorrowInput, Input, SliceInput};
use crate::span::Span;
use core::marker::PhantomData;
use core::ops::Range;
use vstd::pervasive::cloned;
use vstd::prelude::*;

verus! {

/// A source whose tokens are pairs of a token and its span, presented as a
/// source of the first parts. The span of a stretch is put together from the
/// spans of the tokens at its two ends; where a stretch reaches the end of the
/// source, the span `eoi` stands in.
pub struct SpannedInput<T, S, I> {
    /// The source of pairs underneath.
    pub input: I,
    /// The span that stands in at the end of the source.
    pub eoi: S,
    pub phantom: PhantomData<T>,
}

impl<T, S: Clone, I: Clone> Clone for SpannedInput<T, S, I> {
    fn clone(&self) -> (r: Self)
        ensures
            cloned(self.input, r.input),
            cloned(self.eoi, r.eoi),
    {
        SpannedInput { input: self.input.clone(), eoi: self.eoi.clone(), phantom: PhantomData }
    }
}

impl<T, S: Copy, I: Copy> Copy for SpannedInput<T, S, I> {

}

/// What a source of pairs of a token and its span has beyond `Input`.
pub trait Spanned<'a, T, S>: Input<'a, Token = (T, S)> {
    /// Reads the source as a source of the tokens, whose spans are made of
    /// the spans in the pairs. `eoi` is the span that stands in where a
    /// stretch reaches the end of the source.
    fn spanned(self, eoi: S) -> (r: SpannedInput<T, S, Self>)
        ensures
            r.input == self,
            r.eoi == eoi,
    ;
}

impl<'a, T, S, I> Spanned<'a, T, S> for I where
    I: Input<'a, Token = (T, S)>,
    T: 'a,
    S: Span + Clone + 'a,
 {
    fn spanned(self, eoi: S) -> (r: SpannedInput<T, S, Self>) {
        SpannedInput { input: self, eoi, phantom: PhantomData }
    }
}

/// Whether a step back from any offset of `input` is one of its offsets again.
pub open spec fn steps_back<'a, I: Input<'a>>(input: &I) -> bool {
    forall|offset: I::Offset|
        valid_offset(input, offset) ==> #[trigger] valid_offset(input, I::spec_prev(offset))
}

impl<'a, T, S, I> Input<'a> for SpannedInput<T, S, I> where
    I: Input<'a, Token = (T, S)>,
    T: 'a,
    S: Span + Clone + 'a,
 {
    type Offset = I::Offset;

    type Token = T;

    type Span = S;

    open spec fn wf(&self) -> bool {
        &&& self.input.wf()
        &&& steps_back(&self.input)
    }

    open spec fn tokens(&self) -> Seq<T> {
        self.input.tokens().map_values(|pair: (T, S)| pair.0)
    }

    open spec fn offset_at(&self, i: int) -> I::Offset {
        self.input.offset_at(i)
    }

    open spec fn position(&self, offset: I::Offset) -> int {
        self.input.position(offset)
    }

    open spec fn spec_index_of(offset: I::Offset) -> usize {
        I::spec_index_of(offset)
    }

    open spec fn spec_prev(offset: I::Offset) -> I::Offset {
        I::spec_prev(offset)
    }

    /// The span starts where the span of the token behind `start` starts, and
    /// ends where the span of the token behind the step back from `end` ends;
    /// where there is no such token, at the start of the span that stands in.
    open spec fn is_span(&self, start: I::Offset, end: I::Offset, span: S) -> bool {
        let pairs = self.input.tokens();
        let first = self.input.position(start);
        let last = self.input.position(I::spec_prev(end));
        &&& span.spec_context() == self.eoi.spec_context()
        &&& span.spec_start() == if first < pairs.len() {
            pairs[first].1.spec_start()
        } else {
            self.eoi.spec_start()
        }
        &&& span.spec_end() == if last < pairs.len() {
            pairs[last].1.spec_end()
        } else {
            self.eoi.spec_start()
        }
    }

    fn start(&self) -> (offset: I::Offset) {
        self.input.start()
    }

    fn next(&self, offset: I::Offset) -> (r: (I::Offset, Option<T>)) {
        let (offset, pair) = self.input.next(offset);
        match pair {
            Some(pair) => (offset, Some(pair.0)),
            None => (offset, None),
        }
    }

    fn span(&self, range: Range<I::Offset>) -> (span: S) {
        let start = match self.input.next(range.start).1 {
            Some(pair) => pair.1.start(),
            None => self.eoi.start(),
        };
        assert(valid_offset(&self.input, I::spec_prev(range.end))) by {
            assert(valid_offset(&self.input, range.end));
        }
        let end = match self.input.next(I::prev(range.end)).1 {
            Some(pair) => pair.1.end(),
            None => self.eoi.start(),
        };
        S::new(self.eoi.context(), start..end)
    }

    fn prev(offset: I::Offset) -> (r: I::Offset) {
        I::prev(offset)
    }

    fn index_of(offset: I::Offset) -> (i: usize) {
        I::index_of(offset)
    }
}

impl<'a, T, S, I> BorrowInput<'a> for SpannedInput<T, S, I> where
    I: BorrowInput<'a, Token = (T, S)>,
    T: 'a,
    S: Span + Clone + 'a,
 {
    fn next_ref(&self, offset: I::Offset) -> (r: (I::Offset, Option<&'a T>)) {
        let (offset, pair) = self.input.next_ref(offset);
        match pair {
            Some(pair) => (offset, Some(&pair.0)),
            None => (offset, None),
        }
    }
}

impl<'a, T, S, I> SliceInput<'a> for SpannedInput<T, S, I> where
    I: SliceInput<'a, Token = (T, S)>,
    T: 'a,
    S: Span + Clone + 'a,
 {
    type Slice = I::Slice;

    /// A slice is one of the source underneath: it holds the pairs.
    open spec fn is_slice(&self, from: int, to: int, slice: I::Slice) -> bool {
        self.input.is_slice(from, to, slice)
    }

    fn slice(&self, range: Range<I::Offset>) -> (slice: I::Slice) {
        self.input.slice(range)
    }

    fn slice_from(&self, from: I::Offset) -> (slice: I::Slice) {
        self.input.slice_from(from)
    }
}

} // verus!
