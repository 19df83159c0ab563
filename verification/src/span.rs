//! Spans: where in its source a token, or a run of tokens, was found.

use core::ops::Range;
use vstd::prelude::*;

verus! {

/// A span: a start, an end and a context that says which source they refer to.
///
/// A span is observed through these three parts only, and `new` builds the span
/// that has the parts it is given.
pub trait Span: Sized {
    /// What tells spans of different sources apart, `()` where nothing does.
    type Context;

    /// The positions that a span lies between.
    type Offset: Copy;

    spec fn spec_context(&self) -> Self::Context;

    spec fn spec_start(&self) -> Self::Offset;

    spec fn spec_end(&self) -> Self::Offset;

    /// The span of `range` in the source that `context` stands for.
    fn new(context: Self::Context, range: Range<Self::Offset>) -> (s: Self)
        ensures
            s.spec_context() == context,
            s.spec_start() == range.start,
            s.spec_end() == range.end,
    ;

    fn context(&self) -> (c: Self::Context)
        ensures
            c == self.spec_context(),
    ;

    fn start(&self) -> (o: Self::Offset)
        ensures
            o == self.spec_start(),
    ;

    fn end(&self) -> (o: Self::Offset)
        ensures
            o == self.spec_end(),
    ;
}

/// The plain span of a source that needs no context: a start and an end.
#[derive(Clone, Copy, Debug, PartialEq, Eq)]
pub struct SimpleSpan<T> {
    pub start: T,
    pub end: T,
}

impl<T: Copy> Span for SimpleSpan<T> {
    type Context = ();

    type Offset = T;

    open spec fn spec_context(&self) -> () {
        ()
    }

    open spec fn spec_start(&self) -> T {
        self.start
    }

    open spec fn spec_end(&self) -> T {
        self.end
    }

    fn new(context: (), range: Range<T>) -> (s: Self) {
        SimpleSpan { start: range.start, end: range.end }
    }

    fn context(&self) -> (c: ()) {
        ()
    }

    fn start(&self) -> (o: T) {
        self.start
    }

    fn end(&self) -> (o: T) {
        self.end
    }
}

/// A span with a context in front of it: the context is the first part, the
/// second is a span that has none of its own.
impl<C: Copy, S: Span<Context = ()>> Span for (C, S) {
    type Context = C;

    type Offset = S::Offset;

    open spec fn spec_context(&self) -> C {
        self.0
    }

    open spec fn spec_start(&self) -> S::Offset {
        self.1.spec_start()
    }

    open spec fn spec_end(&self) -> S::Offset {
        self.1.spec_end()
    }

    fn new(context: C, range: Range<S::Offset>) -> (s: Self) {
        (context, S::new((), range))
    }

    fn context(&self) -> (c: C) {
        self.0
    }

    fn start(&self) -> (o: S::Offset) {
        self.1.start()
    }

    fn end(&self) -> (o: S::Offset) {
        self.1.end()
    }
}

} // verus!
