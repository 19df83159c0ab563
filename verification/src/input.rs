//! What a source of tokens offers to a parser.
//!
//! A source is a fixed sequence of tokens. Between any two neighbouring
//! tokens, in front of the first and behind the last lies an offset, and these
//! are the only offsets that may be handed back to the source: `start` gives
//! the first, `next` leads from each to the one behind the token it hands out.
//! Parsing progress lives in the offset alone, so one source serves any number
//! of cursors.

use crate::span::Span;
use crate::with_context::WithContext;
use core::ops::Range;
use vstd::prelude::*;

verus! {

/// A source of tokens that can be read from any offset it has handed out.
pub trait Input<'a>: Sized {
    /// The handle on a place between two tokens.
    type Offset: Copy;

    /// What the source is made of.
    type Token;

    /// How the source describes a stretch of itself.
    type Span: Span;

    /// Whether the source is fit to be read: what its own parts must meet for
    /// its methods to be called.
    spec fn wf(&self) -> bool;

    /// The tokens of the source, in the order in which `next` hands them out.
    spec fn tokens(&self) -> Seq<Self::Token>;

    /// The offset in front of token `i`, or the end of the source where `i` is
    /// the number of tokens.
    spec fn offset_at(&self, i: int) -> Self::Offset;

    /// How many tokens lie in front of `offset`.
    spec fn position(&self, offset: Self::Offset) -> int;

    /// The integer that stands for `offset` in a diagnostic.
    spec fn spec_index_of(offset: Self::Offset) -> usize;

    /// The offset that `prev` steps back to.
    spec fn spec_prev(offset: Self::Offset) -> Self::Offset;

    /// Whether `span` is a span that the source gives for the stretch from
    /// `start` to `end`.
    spec fn is_span(&self, start: Self::Offset, end: Self::Offset, span: Self::Span) -> bool;

    /// The offset in front of the first token.
    fn start(&self) -> (offset: Self::Offset)
        requires
            self.wf(),
        ensures
            offset == self.offset_at(0),
            self.position(offset) == 0,
    ;

    /// The token behind `offset` and the offset behind that token; at the end
    /// of the source, `offset` itself and no token. The offset that comes back
    /// is never one that stands for a smaller integer.
    fn next(&self, offset: Self::Offset) -> (r: (Self::Offset, Option<Self::Token>))
        requires
            self.wf(),
            0 <= self.position(offset) <= self.tokens().len(),
            self.offset_at(self.position(offset)) == offset,
        ensures
            self.position(offset) < self.tokens().len() ==> {
                &&& r.0 == self.offset_at(self.position(offset) + 1)
                &&& r.1 == Some(self.tokens()[self.position(offset)])
                &&& self.position(r.0) == self.position(offset) + 1
            },
            self.position(offset) == self.tokens().len() ==> r == (offset, None::<Self::Token>),
            Self::spec_index_of(offset) <= Self::spec_index_of(r.0),
    ;

    /// The span of the stretch from `range.start` to `range.end`.
    fn span(&self, range: Range<Self::Offset>) -> (span: Self::Span)
        requires
            self.wf(),
            0 <= self.position(range.start) <= self.tokens().len(),
            self.offset_at(self.position(range.start)) == range.start,
            0 <= self.position(range.end) <= self.tokens().len(),
            self.offset_at(self.position(range.end)) == range.end,
        ensures
            self.is_span(range.start, range.end, span),
    ;

    /// A step back from `offset`, none where there is nowhere to step back to.
    fn prev(offset: Self::Offset) -> (r: Self::Offset)
        ensures
            r == Self::spec_prev(offset),
    ;

    /// The integer that stands for `offset` in a diagnostic.
    fn index_of(offset: Self::Offset) -> (i: usize)
        ensures
            i == Self::spec_index_of(offset),
    ;

    /// Puts `context` in front of each span of the source.
    fn with_context<C>(self, context: C) -> (r: WithContext<C, Self>) where
        Self: Sized,
        C: Copy,
        Self::Span: Span<Context = ()>,

        ensures
            r.input == self,
            r.context == context,
    {
        WithContext { input: self, context }
    }
}

/// Whether `offset` is one that `input` has handed out: the offset of a place
/// between its tokens.
pub open spec fn valid_offset<'a, I: Input<'a>>(input: &I, offset: I::Offset) -> bool {
    &&& 0 <= input.position(offset) <= input.tokens().len()
    &&& input.offset_at(input.position(offset)) == offset
}

/// What `next` returns at `offset`.
pub open spec fn spec_next<'a, I: Input<'a>>(input: &I, offset: I::Offset) -> (
    I::Offset,
    Option<I::Token>,
) {
    let i = input.position(offset);
    if i < input.tokens().len() {
        (input.offset_at(i + 1), Some(input.tokens()[i]))
    } else {
        (offset, None)
    }
}

/// At the end of a source `next` hands back the offset it was given and no
/// token, and so it does however often it is asked again.
pub proof fn lemma_end_repeats<'a, I: Input<'a>>(input: &I, offset: I::Offset)
    requires
        valid_offset(input, offset),
        spec_next(input, offset).1 is None,
    ensures
        spec_next(input, offset) == (offset, None::<I::Token>),
        spec_next(input, spec_next(input, offset).0) == spec_next(input, offset),
{
}

/// A source that can hand out stretches of itself without copying them.
pub trait SliceInput<'a>: Input<'a> {
    /// A stretch of the source, in the representation of the source.
    type Slice;

    /// Whether `slice` is the stretch of the source that begins behind its
    /// first `from` tokens and ends behind its first `to` tokens.
    spec fn is_slice(&self, from: int, to: int, slice: Self::Slice) -> bool;

    /// The stretch from `range.start` to `range.end`.
    fn slice(&self, range: Range<Self::Offset>) -> (slice: Self::Slice)
        requires
            self.wf(),
            valid_offset(self, range.start),
            valid_offset(self, range.end),
            self.position(range.start) <= self.position(range.end),
        ensures
            self.is_slice(self.position(range.start), self.position(range.end), slice),
    ;

    /// The stretch from `from` to the end of the source.
    fn slice_from(&self, from: Self::Offset) -> (slice: Self::Slice)
        requires
            self.wf(),
            valid_offset(self, from),
        ensures
            self.is_slice(self.position(from), self.tokens().len() as int, slice),
    ;
}

/// A token that text is made of: a character or a byte.
pub trait Char: Sized + Copy {
    /// Text of such tokens, unsized: `str` for characters, `[u8]` for bytes.
    type Str: ?Sized + 'static;
}

impl Char for char {
    type Str = str;
}

impl Char for u8 {
    type Str = [u8];
}

/// A source that is text: its offsets are byte indices and its slices are
/// text again.
pub trait StrInput<'a, C: Char>: Input<'a, Offset = usize, Token = C> + SliceInput<
    'a,
    Slice = &'a C::Str,
> {

}

/// A source that can lend its tokens instead of copying them.
pub trait BorrowInput<'a>: Input<'a> {
    /// What `next` does, with the token lent for as long as the source lives.
    fn next_ref(&self, offset: Self::Offset) -> (r: (Self::Offset, Option<&'a Self::Token>))
        requires
            self.wf(),
            valid_offset(self, offset),
        ensures
            r.0 == spec_next(self, offset).0,
            valid_offset(self, r.0),
            self.position(r.0) == self.position(offset) + if r.1 is Some {
                1int
            } else {
                0int
            },
            match r.1 {
                Some(token) => spec_next(self, offset).1 == Some(*token),
                None => spec_next(self, offset).1 is None,
            },
            Self::spec_index_of(offset) <= Self::spec_index_of(r.0),
    ;
}

} // verus!
