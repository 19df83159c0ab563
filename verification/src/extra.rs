//! The types that a parser brings along: its errors, its state and its
//! context, named once so that a cursor can be written with one parameter.

use crate::error::Merge;
use core::marker::PhantomData;
use vstd::prelude::*;

verus! {

/// The types that a parser brings along.
pub trait ParserExtra {
    /// The diagnostics of the parse.
    type Error: Merge;

    /// What the caller keeps across the whole parse and lends to it.
    type State;

    /// What a parser hands down to the parsers inside it.
    type Context;
}

/// The errors `E`, the state `S` and the context `C`.
pub struct Full<E, S, C>(pub PhantomData<(E, S, C)>);

impl<E: Merge, S, C> ParserExtra for Full<E, S, C> {
    type Error = E;

    type State = S;

    type Context = C;
}

} // verus!
