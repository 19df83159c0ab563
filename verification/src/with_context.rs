//! A source whose spans carry a context that the source itself does not know.

use crate::input::{BorrowInput, Char, Input, SliceInput, StrInput};
use crate::span::Span;
use core::ops::Range;
use vstd::prelude::*;

verus! {

/// A source with a context put in front of each of its spans: the name of a
/// file, say. Tokens, offsets and slices are those of the source underneath.
#[derive(Copy, Clone)]
pub struct WithContext<Ctx, I> {
    /// The source underneath.
    pub input: I,
    /// The context that each span gets.
    pub context: Ctx,
}

impl<'a, Ctx: Copy + 'a, I: Input<'a>> Input<'a> for WithContext<Ctx, I> where
    I::Span: Span<Context = ()>,
 {
    type Offset = I::Offset;

    type Token = I::Token;

    type Span = (Ctx, I::Span);

    open spec fn wf(&self) -> bool {
        self.input.wf()
    }

    open spec fn tokens(&self) -> Seq<I::Token> {
        self.input.tokens()
    }

    open spec fn offset_at(&self, i: int) -> I::Offset {
        self.input.offset_at(i)
    }

    open spec fn position(&self, offset: I::Offset) -> int {
        self.input.position(offset)
    }

    open spec fn spec_index_of(offset: I::Offset) -> usize {
        I::spec_index_of(offset)
    }

    open spec fn spec_prev(offset: I::Offset) -> I::Offset {
        I::spec_prev(offset)
    }

    /// The context, and a span of the source underneath.
    open spec fn is_span(&self, start: I::Offset, end: I::Offset, span: (Ctx, I::Span)) -> bool {
        &&& span.0 == self.context
        &&& self.input.is_span(start, end, span.1)
    }

    fn start(&self) -> (offset: I::Offset) {
        self.input.start()
    }

    fn next(&self, offset: I::Offset) -> (r: (I::Offset, Option<I::Token>)) {
        self.input.next(offset)
    }

    fn span(&self, range: Range<I::Offset>) -> (span: (Ctx, I::Span)) {
        (self.context, self.input.span(range))
    }

    fn prev(offset: I::Offset) -> (r: I::Offset) {
        I::prev(offset)
    }

    fn index_of(offset: I::Offset) -> (i: usize) {
        I::index_of(offset)
    }
}

impl<'a, Ctx: Copy + 'a, I: BorrowInput<'a>> BorrowInput<'a> for WithContext<Ctx, I> where
    I::Span: Span<Context = ()>,
 {
    fn next_ref(&self, offset: I::Offset) -> (r: (I::Offset, Option<&'a I::Token>)) {
        self.input.next_ref(offset)
    }
}

impl<'a, Ctx: Copy + 'a, I: SliceInput<'a>> SliceInput<'a> for WithContext<Ctx, I> where
    I::Span: Span<Context = ()>,
 {
    type Slice = I::Slice;

    open spec fn is_slice(&self, from: int, to: int, slice: I::Slice) -> bool {
        self.input.is_slice(from, to, slice)
    }

    fn slice(&self, range: Range<I::Offset>) -> (slice: I::Slice) {
        self.input.slice(range)
    }

    fn slice_from(&self, from: I::Offset) -> (slice: I::Slice) {
        self.input.slice_from(from)
    }
}

impl<'a, Ctx, C, I> StrInput<'a, C> for WithContext<Ctx, I> where
    I: StrInput<'a, C>,
    I::Span: Span<Context = ()>,
    Ctx: Copy + 'a,
    C: Char,
 {

}

} // verus!
