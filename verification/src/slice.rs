//! Slices and arrays as sources: the tokens are the elements, the offsets
//! their indices.

use crate::input::{BorrowInput, Input, SliceInput, StrInput};
use crate::span::SimpleSpan;
use core::ops::Range;
use vstd::prelude::*;

verus! {

impl<'a, T: Copy> Input<'a> for &'a [T] {
    type Offset = usize;

    type Token = T;

    type Span = SimpleSpan<usize>;

    open spec fn wf(&self) -> bool {
        true
    }

    open spec fn tokens(&self) -> Seq<T> {
        self@
    }

    open spec fn offset_at(&self, i: int) -> usize {
        i as usize
    }

    open spec fn position(&self, offset: usize) -> int {
        offset as int
    }

    open spec fn spec_index_of(offset: usize) -> usize {
        offset
    }

    open spec fn spec_prev(offset: usize) -> usize {
        if offset == 0 {
            0
        } else {
            (offset - 1) as usize
        }
    }

    open spec fn is_span(&self, start: usize, end: usize, span: SimpleSpan<usize>) -> bool {
        span == (SimpleSpan { start, end })
    }

    fn start(&self) -> (offset: usize) {
        0
    }

    fn next(&self, offset: usize) -> (r: (usize, Option<T>)) {
        let (offset, token) = self.next_ref(offset);
        match token {
            Some(token) => (offset, Some(*token)),
            None => (offset, None),
        }
    }

    fn span(&self, range: Range<usize>) -> (span: SimpleSpan<usize>) {
        SimpleSpan { start: range.start, end: range.end }
    }

    fn prev(offset: usize) -> (r: usize) {
        offset.saturating_sub(1)
    }

    fn index_of(offset: usize) -> (i: usize) {
        offset
    }
}

impl<'a, T: Copy> SliceInput<'a> for &'a [T] {
    type Slice = &'a [T];

    open spec fn is_slice(&self, from: int, to: int, slice: &'a [T]) -> bool {
        slice@ == self@.subrange(from, to)
    }

    fn slice(&self, range: Range<usize>) -> (slice: &'a [T]) {
        &self[range]
    }

    fn slice_from(&self, from: usize) -> (slice: &'a [T]) {
        &self[from..self.len()]
    }
}

impl<'a, T: Copy> BorrowInput<'a> for &'a [T] {
    fn next_ref(&self, offset: usize) -> (r: (usize, Option<&'a T>)) {
        if let Some(token) = self.get(offset) {
            (offset + 1, Some(token))
        } else {
            (offset, None)
        }
    }
}

impl<'a, T: Copy, const N: usize> Input<'a> for &'a [T; N] {
    type Offset = usize;

    type Token = T;

    type Span = SimpleSpan<usize>;

    open spec fn wf(&self) -> bool {
        true
    }

    open spec fn tokens(&self) -> Seq<T> {
        self@
    }

    open spec fn offset_at(&self, i: int) -> usize {
        i as usize
    }

    open spec fn position(&self, offset: usize) -> int {
        offset as int
    }

    open spec fn spec_index_of(offset: usize) -> usize {
        offset
    }

    open spec fn spec_prev(offset: usize) -> usize {
        if offset == 0 {
            0
        } else {
            (offset - 1) as usize
        }
    }

    open spec fn is_span(&self, start: usize, end: usize, span: SimpleSpan<usize>) -> bool {
        span == (SimpleSpan { start, end })
    }

    fn start(&self) -> (offset: usize) {
        0
    }

    fn next(&self, offset: usize) -> (r: (usize, Option<T>)) {
        let (offset, token) = self.next_ref(offset);
        match token {
            Some(token) => (offset, Some(*token)),
            None => (offset, None),
        }
    }

    fn span(&self, range: Range<usize>) -> (span: SimpleSpan<usize>) {
        SimpleSpan { start: range.start, end: range.end }
    }

    fn prev(offset: usize) -> (r: usize) {
        offset.saturating_sub(1)
    }

    fn index_of(offset: usize) -> (i: usize) {
        offset
    }
}

impl<'a, T: Copy, const N: usize> SliceInput<'a> for &'a [T; N] {
    type Slice = &'a [T];

    open spec fn is_slice(&self, from: int, to: int, slice: &'a [T]) -> bool {
        slice@ == self@.subrange(from, to)
    }

    fn slice(&self, range: Range<usize>) -> (slice: &'a [T]) {
        let all: &'a [T] = self.as_slice();
        &all[range]
    }

    fn slice_from(&self, from: usize) -> (slice: &'a [T]) {
        let all: &'a [T] = self.as_slice();
        &all[from..N]
    }
}

impl<'a, T: Copy, const N: usize> BorrowInput<'a> for &'a [T; N] {
    fn next_ref(&self, offset: usize) -> (r: (usize, Option<&'a T>)) {
        let all: &'a [T] = self.as_slice();
        if let Some(token) = all.get(offset) {
            (offset + 1, Some(token))
        } else {
            (offset, None)
        }
    }
}

impl<'a> StrInput<'a, u8> for &'a [u8] {

}

impl<'a, const N: usize> StrInput<'a, u8> for &'a [u8; N] {

}

} // verus!
