//! The cursor of a parse: where in the source the parse stands, the errors it
//! has met, the context it was given and what it remembers of the parsers it
//! has tried.

use crate::error::{merge_alt, Errors, Located};
use crate::extra::{Full, ParserExtra};
use crate::input::{spec_next, valid_offset, BorrowInput, Char, Input, SliceInput, StrInput};
use crate::memo::{Memo, MemoKey};
use crate::model::{Cursor, Step};
use core::ops::Range;
use vstd::prelude::*;

verus! {

/// A place to come back to: where a cursor stood and how many errors it had
/// recovered from.
pub struct Marker<'a, I: Input<'a>> {
    pub(crate) offset: I::Offset,
    err_count: usize,
}

impl<'a, I: Input<'a>> Copy for Marker<'a, I> {

}

impl<'a, I: Input<'a>> Clone for Marker<'a, I> {
    fn clone(&self) -> (r: Self)
        ensures
            r == *self,
    {
        *self
    }
}

impl<'a, I: Input<'a>> Marker<'a, I> {
    /// Where the cursor stood.
    pub closed spec fn spec_offset(&self) -> I::Offset {
        self.offset
    }

    /// How many errors the cursor had recovered from.
    pub closed spec fn err_count(&self) -> nat {
        self.err_count as nat
    }
}

/// The cursor that the parsers of one parse hand on to each other.
pub struct InputRef<'a, 'parse, I: Input<'a>, E: ParserExtra> {
    input: &'parse I,
    offset: I::Offset,
    errors: Errors<E::Error>,
    state: &'parse mut E::State,
    ctx: Option<E::Context>,
    memos: Memo<E::Error>,
}

impl<'a, 'parse, I: Input<'a>, E: ParserExtra> View for InputRef<'a, 'parse, I, E> {
    type V = Cursor<I::Offset, E::Error, E::Context>;

    closed spec fn view(&self) -> Cursor<I::Offset, E::Error, E::Context> {
        Cursor {
            offset: self.offset,
            alt: self.errors.alt,
            secondary: self.errors.secondary@,
            context: self.ctx,
            memo: self.memos@,
        }
    }
}

impl<'a, 'parse, I: Input<'a>, E: ParserExtra> InputRef<'a, 'parse, I, E> {
    /// The source that the cursor reads.
    pub closed spec fn source(&self) -> I {
        *self.input
    }

    /// The state that the caller has lent to the parse, as it is now.
    pub closed spec fn state_value(&self) -> E::State {
        *self.state
    }

    /// The cursor reads a source that is fit to be read, stands at one of its
    /// offsets, and has its context.
    pub open spec fn wf(&self) -> bool {
        &&& self.source().wf()
        &&& valid_offset(&self.source(), self@.offset)
        &&& self@.context is Some
        &&& self.memo_wf()
    }

    /// What the cursor remembers is in order.
    pub closed spec fn memo_wf(&self) -> bool {
        self.memos.wf()
    }

    /// A cursor at the start of `input`, with no errors, nothing remembered
    /// and the context that `Default` gives.
    pub fn new(input: &'parse I, state: &'parse mut E::State) -> (cursor: Self) where
        E::Context: Default,

        requires
            input.wf(),
        ensures
            cursor.wf(),
            cursor.source() == *input,
            cursor.state_value() == *old(state),
            cursor@.offset == input.offset_at(0),
            cursor.position() == 0,
            cursor@.alt is None,
            cursor@.secondary == Seq::<E::Error>::empty(),
            match cursor@.context {
                Some(context) => call_ensures(<E::Context as Default>::default, (), context),
                None => false,
            },
            cursor@.memo == Map::<MemoKey, Option<Located<E::Error>>>::empty(),
    {
        InputRef {
            offset: input.start(),
            input,
            state,
            ctx: Some(E::Context::default()),
            errors: Errors::default(),
            memos: Memo::new(),
        }
    }

    /// The offset at which the cursor stands.
    pub fn offset(&self) -> (offset: I::Offset)
        ensures
            offset == self@.offset,
    {
        self.offset
    }

    /// A marker of where the cursor stands and of the errors it holds.
    pub fn save(&self) -> (marker: Marker<'a, I>)
        ensures
            marker.spec_offset() == self@.offset,
            marker.err_count() == self@.secondary.len(),
    {
        Marker { offset: self.offset, err_count: self.errors.secondary.len() }
    }

    /// Records `error`: it is part of the result of the parse unless the
    /// cursor is taken back to a marker saved before it.
    pub fn emit(&mut self, error: E::Error)
        ensures
            final(self)@ == old(self)@.step(Step::Emit(error)),
            final(self).source() == old(self).source(),
            final(self).state_value() == old(self).state_value(),
            old(self).wf() ==> final(self).wf(),
    {
        self.errors.secondary.push(error);
    }
}

impl<'a, 'parse, I: Input<'a>, E: ParserExtra> InputRef<'a, 'parse, I, E> {
    /// Takes the cursor back to `marker`: it stands where it stood then, and
    /// the errors recorded since are gone. The best failure stays.
    pub fn rewind(&mut self, marker: Marker<'a, I>)
        requires
            valid_offset(&old(self).source(), marker.spec_offset()),
        ensures
            final(self)@ == old(self)@.step(Step::Rewind(marker.spec_offset(), marker.err_count())),
            final(self).source() == old(self).source(),
            final(self).state_value() == old(self).state_value(),
            old(self).wf() ==> final(self).wf(),
    {
        self.errors.secondary.truncate(marker.err_count);
        self.offset = marker.offset;
    }

    /// Reports the failure of an alternative. Of the failure kept so far and
    /// the new one, the one that came further is kept; of two that came
    /// equally far, both merged.
    pub fn add_alt(&mut self, error: Option<Located<E::Error>>)
        ensures
            final(self)@ == old(self)@.step(Step::Alt(error)),
            final(self).source() == old(self).source(),
            final(self).state_value() == old(self).state_value(),
            old(self).wf() ==> final(self).wf(),
    {
        self.errors.add_alt(error);
    }

    /// Takes the best failure out of the cursor, which then keeps none.
    pub fn take_alt(&mut self) -> (alt: Option<Located<E::Error>>)
        ensures
            alt == old(self)@.alt,
            final(self)@ == old(self)@.step(Step::TakeAlt),
            final(self).source() == old(self).source(),
            final(self).state_value() == old(self).state_value(),
            old(self).wf() ==> final(self).wf(),
    {
        self.errors.alt.take()
    }

    /// The errors that the parse has recovered from, first to last.
    pub fn into_errs(self) -> (errors: Vec<E::Error>)
        ensures
            errors@ == self@.secondary,
    {
        self.errors.secondary
    }

    /// The state that the caller has lent to the parse.
    pub fn state(&mut self) -> (state: &mut E::State)
        ensures
            *state == old(self).state_value(),
            final(self).state_value() == *final(state),
            final(self)@ == old(self)@,
            final(self).source() == old(self).source(),
            old(self).wf() ==> final(self).wf(),
    {
        self.state
    }

    /// The context that the cursor was given.
    pub fn ctx(&self) -> (context: &E::Context)
        requires
            self.wf(),
        ensures
            self@.context == Some(*context),
    {
        self.ctx.as_ref().unwrap()
    }
}

impl<'a, 'parse, I: Input<'a>, E: ParserExtra> InputRef<'a, 'parse, I, E> {
    /// Reads the token behind the cursor and moves the cursor behind it: the
    /// offset at which the cursor then stands, and the token. At the end of
    /// the source the cursor stays, and there is no token.
    pub fn next(&mut self) -> (r: (I::Offset, Option<I::Token>))
        requires
            old(self).wf(),
        ensures
            r == spec_next(&old(self).source(), old(self)@.offset),
            final(self)@ == old(self)@.step(Step::Move(r.0)),
            final(self).source() == old(self).source(),
            final(self).state_value() == old(self).state_value(),
            final(self).wf(),
            final(self).position() == old(self).position() + if r.1 is Some {
                1int
            } else {
                0int
            },
    {
        let (offset, token) = self.input.next(self.offset);
        self.offset = offset;
        (self.offset, token)
    }

    /// What `next` does, with the token lent by the source.
    pub fn next_ref(&mut self) -> (r: (I::Offset, Option<&'a I::Token>)) where I: BorrowInput<'a>
        requires
            old(self).wf(),
        ensures
            r.0 == spec_next(&old(self).source(), old(self)@.offset).0,
            match r.1 {
                Some(token) => spec_next(&old(self).source(), old(self)@.offset).1 == Some(*token),
                None => spec_next(&old(self).source(), old(self)@.offset).1 is None,
            },
            final(self)@ == old(self)@.step(Step::Move(r.0)),
            final(self).source() == old(self).source(),
            final(self).state_value() == old(self).state_value(),
            final(self).wf(),
            final(self).position() == old(self).position() + if r.1 is Some {
                1int
            } else {
                0int
            },
    {
        let (offset, token) = self.input.next_ref(self.offset);
        self.offset = offset;
        (self.offset, token)
    }

    /// Reads the token behind the cursor and moves the cursor behind it; at
    /// the end of the source there is none, and the cursor stays.
    pub fn next_token(&mut self) -> (token: Option<I::Token>)
        requires
            old(self).wf(),
        ensures
            token == spec_next(&old(self).source(), old(self)@.offset).1,
            final(self)@ == old(self)@.step(
                Step::Move(spec_next(&old(self).source(), old(self)@.offset).0),
            ),
            final(self).source() == old(self).source(),
            final(self).state_value() == old(self).state_value(),
            final(self).wf(),
    {
        self.next().1
    }

    /// The token behind the cursor, none at the end of the source. The cursor
    /// stays where it stands.
    pub fn peek(&self) -> (token: Option<I::Token>)
        requires
            self.wf(),
        ensures
            token == spec_next(&self.source(), self@.offset).1,
    {
        self.input.next(self.offset).1
    }

    /// Moves the cursor behind the token that it stands in front of; at the
    /// end of the source it stays.
    pub fn skip(&mut self)
        requires
            old(self).wf(),
        ensures
            final(self)@ == old(self)@.step(
                Step::Move(spec_next(&old(self).source(), old(self)@.offset).0),
            ),
            final(self).source() == old(self).source(),
            final(self).state_value() == old(self).state_value(),
            final(self).wf(),
    {
        let _ = self.next();
    }

    /// Moves the cursor over the tokens that `f` accepts, up to the first
    /// that it does not accept or to the end of the source.
    pub fn skip_while<F: Fn(&I::Token) -> bool>(&mut self, f: F)
        requires
            old(self).wf(),
            forall|token: &I::Token| call_requires(f, (token,)),
        ensures
            final(self)@ == old(self)@.step(Step::Move(final(self)@.offset)),
            final(self).source() == old(self).source(),
            final(self).state_value() == old(self).state_value(),
            final(self).wf(),
            old(self).position() <= final(self).position() <= old(self).source().tokens().len(),
            forall|k: int|
                old(self).position() <= k < final(self).position() ==> call_ensures(
                    f,
                    (&#[trigger] old(self).source().tokens()[k],),
                    true,
                ),
            final(self).position() < old(self).source().tokens().len() ==> call_ensures(
                f,
                (&old(self).source().tokens()[final(self).position()],),
                false,
            ),
    {
        let mut offs = self.offset;
        loop
            invariant_except_break
                *self == *old(self),
            invariant
                old(self).wf(),
                self.input == old(self).input,
                valid_offset(self.input, offs),
                old(self).position() <= self.input.position(offs),
                forall|token: &I::Token| call_requires(f, (token,)),
                forall|k: int|
                    old(self).position() <= k < self.input.position(offs) ==> call_ensures(
                        f,
                        (&#[trigger] self.input.tokens()[k],),
                        true,
                    ),
            ensures
                self.wf(),
                self@ == old(self)@.step(Step::Move(self@.offset)),
                self.source() == old(self).source(),
                self.state_value() == old(self).state_value(),
                old(self).position() <= self.position() <= self.source().tokens().len(),
                forall|k: int|
                    old(self).position() <= k < self.position() ==> call_ensures(
                        f,
                        (&#[trigger] self.source().tokens()[k],),
                        true,
                    ),
                self.position() < self.source().tokens().len() ==> call_ensures(
                    f,
                    (&self.source().tokens()[self.position()],),
                    false,
                ),
            decreases self.input.tokens().len() - self.input.position(offs),
        {
            let (offset, token) = self.input.next(offs);
            let accepted = match &token {
                Some(token) => f(token),
                None => false,
            };
            if !accepted {
                self.offset = offs;
                break ;
            } else {
                offs = offset;
            }
        }
    }

    /// The span from `before` to where the cursor stands.
    pub fn span_since(&self, before: I::Offset) -> (span: I::Span)
        requires
            self.wf(),
            valid_offset(&self.source(), before),
        ensures
            self.source().is_span(before, self@.offset, span),
    {
        self.input.span(before..self.offset)
    }

    /// The stretch of the source from `range.start` to `range.end`.
    pub fn slice(&self, range: Range<I::Offset>) -> (slice: I::Slice) where I: SliceInput<'a>
        requires
            self.wf(),
            valid_offset(&self.source(), range.start),
            valid_offset(&self.source(), range.end),
            self.source().position(range.start) <= self.source().position(range.end),
        ensures
            self.source().is_slice(
                self.source().position(range.start),
                self.source().position(range.end),
                slice,
            ),
    {
        self.input.slice(range)
    }

    /// The stretch of the source from `from` to its end.
    pub fn slice_from(&self, from: I::Offset) -> (slice: I::Slice) where I: SliceInput<'a>
        requires
            self.wf(),
            valid_offset(&self.source(), from),
        ensures
            self.source().is_slice(
                self.source().position(from),
                self.source().tokens().len() as int,
                slice,
            ),
    {
        self.input.slice_from(from)
    }

    /// The stretch of the source from where the cursor stands to its end.
    pub fn slice_trailing(&self) -> (slice: I::Slice) where I: SliceInput<'a>
        requires
            self.wf(),
        ensures
            self.source().is_slice(self.position(), self.source().tokens().len() as int, slice),
    {
        self.input.slice_from(self.offset)
    }

    /// How many tokens of the source lie in front of the cursor.
    pub open spec fn position(&self) -> int {
        self.source().position(self@.offset)
    }
}

impl<'a, 'parse, I: Input<'a>, E: ParserExtra> InputRef<'a, 'parse, I, E> {
    /// Whether `inner` is the cursor that a scope of `self` begins with: it
    /// reads `source` from `offset` on, has the context `context`, borrows
    /// the state of `self`, and holds no errors and remembers nothing.
    pub open spec fn begins_scope<'sub, X: ParserExtra<Error = E::Error, State = E::State>>(
        &self,
        inner: InputRef<'a, 'sub, I, X>,
        source: I,
        offset: I::Offset,
        context: Option<X::Context>,
    ) -> bool {
        &&& inner.wf()
        &&& inner.source() == source
        &&& inner.state_value() == self.state_value()
        &&& inner@.offset == offset
        &&& inner@.context == context
        &&& inner@.alt is None
        &&& inner@.secondary == Seq::<E::Error>::empty()
        &&& inner@.memo == Map::<MemoKey, Option<Located<E::Error>>>::empty()
    }

    /// Runs `f` on a cursor of its own that stands where `self` stands and has
    /// the context `new_ctx`. Then `self` stands where that cursor came to
    /// stand and holds its errors behind its own; its context is what it was.
    pub fn with_ctx<'sub, C, O, F>(&'sub mut self, new_ctx: C, f: F) -> (res: O) where
        'parse: 'sub,
        F: FnOnce(&mut InputRef<'a, 'sub, I, Full<E::Error, E::State, C>>) -> O,

        requires
            old(self).wf(),
            forall|inner: &mut InputRef<'a, 'sub, I, Full<E::Error, E::State, C>>|
                old(self).begins_scope(
                    *inner,
                    old(self).source(),
                    old(self)@.offset,
                    Some(new_ctx),
                ) ==> call_requires(f, (inner,)),
            forall|inner: &mut InputRef<'a, 'sub, I, Full<E::Error, E::State, C>>, res: O|
                inner.wf() && #[trigger] call_ensures(f, (inner,), res) ==> final(inner).wf()
                    && final(inner).source() == inner.source(),
        ensures
            final(self).wf(),
            final(self).source() == old(self).source(),
            final(self)@.context == old(self)@.context,
            exists|inner: &mut InputRef<'a, 'sub, I, Full<E::Error, E::State, C>>|
                {
                    &&& old(self).begins_scope(
                        *inner,
                        old(self).source(),
                        old(self)@.offset,
                        Some(new_ctx),
                    )
                    &&& #[trigger] call_ensures(f, (inner,), res)
                    &&& final(self)@ == old(self)@.step(
                        Step::Scope(
                            final(inner)@.offset,
                            final(inner)@.alt,
                            final(inner)@.secondary,
                        ),
                    )
                },
    {
        let mut new_inp = InputRef {
            input: self.input,
            offset: self.offset,
            state: &mut *self.state,
            ctx: Some(new_ctx),
            errors: Errors::default(),
            memos: Memo::new(),
        };
        assert(old(self).begins_scope(new_inp, old(self).source(), old(self)@.offset, Some(new_ctx)));
        let res = f(&mut new_inp);
        self.offset = new_inp.offset;
        self.errors.absorb(new_inp.errors);
        res
    }

    /// Runs `f` on a cursor of its own over another source, `new_input`, from
    /// its start. That cursor has the context of `self` for the time, and
    /// `self` has it back afterwards. Then `self` stands where it stood, and
    /// holds the errors of that cursor behind its own.
    pub fn with_input<'sub, O, F>(&'sub mut self, new_input: &'sub I, f: F) -> (res: O) where
        'parse: 'sub,
        F: FnOnce(&mut InputRef<'a, 'sub, I, E>) -> O,

        requires
            old(self).wf(),
            new_input.wf(),
            forall|inner: &mut InputRef<'a, 'sub, I, E>|
                old(self).begins_scope(
                    *inner,
                    *new_input,
                    new_input.offset_at(0),
                    old(self)@.context,
                ) ==> call_requires(f, (inner,)),
            forall|inner: &mut InputRef<'a, 'sub, I, E>, res: O|
                inner.wf() && #[trigger] call_ensures(f, (inner,), res) ==> final(inner).wf()
                    && final(inner).source() == inner.source(),
        ensures
            final(self).wf(),
            final(self).source() == old(self).source(),
            final(self)@.offset == old(self)@.offset,
            final(self)@.memo == old(self)@.memo,
            exists|inner: &mut InputRef<'a, 'sub, I, E>|
                {
                    &&& old(self).begins_scope(
                        *inner,
                        *new_input,
                        new_input.offset_at(0),
                        old(self)@.context,
                    )
                    &&& #[trigger] call_ensures(f, (inner,), res)
                    &&& final(self)@.context == final(inner)@.context
                    &&& final(self)@.secondary == old(self)@.secondary + final(inner)@.secondary
                    &&& final(self)@.alt == merge_alt(old(self)@.alt, final(inner)@.alt)
                },
    {
        let mut new_inp = InputRef {
            offset: new_input.start(),
            input: new_input,
            state: &mut *self.state,
            ctx: self.ctx.take(),
            errors: Errors::default(),
            memos: Memo::new(),
        };
        assert(old(self).begins_scope(
            new_inp,
            *new_input,
            new_input.offset_at(0),
            old(self)@.context,
        ));
        let res = f(&mut new_inp);
        self.errors.absorb(new_inp.errors);
        self.ctx = new_inp.ctx;
        res
    }
}

impl<'a, 'parse, I: Input<'a>, E: ParserExtra> InputRef<'a, 'parse, I, E> {
    /// Moves the cursor of a text `skip` bytes on.
    pub fn skip_bytes<C>(&mut self, skip: usize) where C: Char, I: StrInput<'a, C>
        requires
            old(self).wf(),
            old(self)@.offset + skip <= usize::MAX,
            valid_offset(&old(self).source(), (old(self)@.offset + skip) as usize),
        ensures
            final(self)@ == old(self)@.step(Step::Move((old(self)@.offset + skip) as usize)),
            final(self).source() == old(self).source(),
            final(self).state_value() == old(self).state_value(),
            final(self).wf(),
    {
        self.offset += skip;
    }

    /// The key under which the cursor remembers how the parser `parser` fared
    /// at the offset `offset`.
    pub open spec fn memo_key(offset: I::Offset, parser: usize) -> MemoKey {
        (I::spec_index_of(offset), parser)
    }

    /// Enters the parser `parser` where the cursor stands. Where the cursor
    /// remembers that parser at this place, nothing changes and the answer is
    /// `true`: the parser is at work here further up, or has failed here
    /// before, and `memo_outcome` says which. Otherwise the cursor remembers
    /// from now on that the parser is at work here, and the answer is `false`.
    pub fn memo_enter(&mut self, parser: usize) -> (known: bool)
        requires
            old(self).wf(),
        ensures
            known == old(self)@.memo.contains_key(Self::memo_key(old(self)@.offset, parser)),
            known ==> final(self)@ == old(self)@,
            !known ==> final(self)@ == old(self)@.step(
                Step::Remember(Self::memo_key(old(self)@.offset, parser), None),
            ),
            final(self).source() == old(self).source(),
            final(self).state_value() == old(self).state_value(),
            final(self).wf(),
    {
        let key = (I::index_of(self.offset), parser);
        let known = self.memos.get(key).is_some();
        if !known {
            self.memos.insert(key, None);
        }
        known
    }

    /// The failure that the cursor remembers of the parser `parser` where it
    /// stands: none where it remembers nothing of it, or that it is at work.
    pub fn memo_outcome(&self, parser: usize) -> (outcome: Option<&Located<E::Error>>)
        requires
            self.wf(),
        ensures
            match outcome {
                Some(failure) => {
                    &&& self@.memo.contains_key(Self::memo_key(self@.offset, parser))
                    &&& self@.memo[Self::memo_key(self@.offset, parser)] == Some(*failure)
                },
                None => {
                    ||| !self@.memo.contains_key(Self::memo_key(self@.offset, parser))
                    ||| self@.memo[Self::memo_key(self@.offset, parser)] is None
                },
            },
    {
        match self.memos.get((I::index_of(self.offset), parser)) {
            Some(outcome) => outcome.as_ref(),
            None => None,
        }
    }

    /// Remembers that the parser `parser`, entered at `before`, has ended
    /// with `outcome`: a failure, or none.
    pub fn memo_store(&mut self, before: I::Offset, parser: usize, outcome: Option<Located<E::Error>>)
        requires
            old(self).wf(),
        ensures
            final(self)@ == old(self)@.step(Step::Remember(Self::memo_key(before, parser), outcome)),
            final(self).source() == old(self).source(),
            final(self).state_value() == old(self).state_value(),
            final(self).wf(),
    {
        self.memos.insert((I::index_of(before), parser), outcome);
    }

    /// Forgets the parser `parser` at `before`: it has matched there.
    pub fn memo_forget(&mut self, before: I::Offset, parser: usize)
        requires
            old(self).wf(),
        ensures
            final(self)@ == old(self)@.step(Step::Forget(Self::memo_key(before, parser))),
            final(self).source() == old(self).source(),
            final(self).state_value() == old(self).state_value(),
            final(self).wf(),
    {
        self.memos.remove((I::index_of(before), parser));
    }
}

} // verus!
