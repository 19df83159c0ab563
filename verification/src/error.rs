//! The two kinds of diagnostic that a parse keeps: the one failure that best
//! explains why no alternative matched, and the errors that the parse has
//! recovered from and will report whatever follows.

use vstd::prelude::*;

verus! {

/// Diagnostics of which two, found at one place, can be made into one.
///
/// How they are made into one is the diagnostic's own business: one may put
/// together what each of them expected, another may keep the first.
pub trait Merge: Sized {
    /// The diagnostic that `merge` makes of `self` and `other`: the first of
    /// them, unless the diagnostic says otherwise.
    open spec fn spec_merge(self, other: Self) -> Self {
        self
    }

    /// One diagnostic in place of two that were found at the same place.
    fn merge(self, other: Self) -> (r: Self)
        ensures
            r == self.spec_merge(other),
    ;
}

/// The diagnostic that says nothing: two of them make one.
impl Merge for () {
    fn merge(self, other: ()) -> (r: ()) {
        self
    }
}

/// A diagnostic and how far into the source the parse had come when it failed.
#[derive(Clone, Debug, PartialEq, Eq)]
pub struct Located<E> {
    /// The integer of the offset at which the parse failed.
    pub pos: usize,
    /// What went wrong there.
    pub err: E,
}

impl<E> Located<E> {
    /// The diagnostic `err`, found at `pos`.
    pub fn at(pos: usize, err: E) -> (r: Self)
        ensures
            r == (Located { pos, err }),
    {
        Located { pos, err }
    }
}

impl<E: Merge> Located<E> {
    /// Of two failures the one that came further into the source; of two that
    /// came equally far, both made into one.
    pub open spec fn spec_prioritize(self, other: Self) -> Self {
        if self.pos > other.pos {
            self
        } else if self.pos < other.pos {
            other
        } else {
            Located { pos: self.pos, err: self.err.spec_merge(other.err) }
        }
    }

    /// Of two failures the one that came further into the source; of two that
    /// came equally far, both made into one.
    pub fn prioritize(self, other: Self) -> (r: Self)
        ensures
            r == self.spec_prioritize(other),
    {
        if self.pos > other.pos {
            self
        } else if self.pos < other.pos {
            other
        } else {
            Located { pos: self.pos, err: self.err.merge(other.err) }
        }
    }
}

/// The failure to keep when `candidate` is reported while `current` is kept.
pub open spec fn merge_alt<E: Merge>(
    current: Option<Located<E>>,
    candidate: Option<Located<E>>,
) -> Option<Located<E>> {
    match (current, candidate) {
        (Some(a), Some(b)) => Some(a.spec_prioritize(b)),
        (Some(a), None) => Some(a),
        (None, b) => b,
    }
}

/// Of two failures of which one came further than the other, it does not
/// matter which is reported first: the same failure is kept.
pub proof fn lemma_alt_order<E: Merge>(current: Option<Located<E>>, a: Located<E>, b: Located<E>)
    requires
        a.pos > b.pos,
    ensures
        merge_alt(merge_alt(current, Some(a)), Some(b)) == merge_alt(
            merge_alt(current, Some(b)),
            Some(a),
        ),
{
}

/// What a cursor keeps of the errors of a parse.
pub struct Errors<E> {
    /// The failure that best explains why no alternative matched so far.
    pub alt: Option<Located<E>>,
    /// The errors that the parse has recovered from, in the order in which
    /// they were found.
    pub secondary: Vec<E>,
}

impl<E> Default for Errors<E> {
    fn default() -> (r: Self)
        ensures
            r.alt is None,
            r.secondary@ == Seq::<E>::empty(),
    {
        Errors { alt: None, secondary: Vec::new() }
    }
}

impl<E: Merge> Errors<E> {
    /// Reports the failure of an alternative: of the failure kept so far and
    /// `candidate`, the one that came further is kept; of two that came
    /// equally far, both merged.
    pub fn add_alt(&mut self, candidate: Option<Located<E>>)
        ensures
            final(self).alt == merge_alt(old(self).alt, candidate),
            final(self).secondary == old(self).secondary,
    {
        self.alt = match (self.alt.take(), candidate) {
            (Some(a), Some(b)) => Some(a.prioritize(b)),
            (Some(a), None) => Some(a),
            (None, b) => b,
        };
    }

    /// Takes in the errors that a scope has met: what it recovered from comes
    /// behind what was recovered from before, and its best failure is
    /// reported as the failure of an alternative.
    pub fn absorb(&mut self, scope: Errors<E>)
        ensures
            final(self).alt == merge_alt(old(self).alt, scope.alt),
            final(self).secondary@ == old(self).secondary@ + scope.secondary@,
    {
        let mut scope = scope;
        self.secondary.append(&mut scope.secondary);
        self.add_alt(scope.alt);
    }
}

/// Where a check on what was parsed puts the errors it finds: they do not
/// end the parse, and take no part in the choice of the best failure.
pub struct Emitter<E> {
    emitted: Vec<E>,
}

impl<E> View for Emitter<E> {
    type V = Seq<E>;

    /// The errors emitted so far, first to last.
    closed spec fn view(&self) -> Seq<E> {
        self.emitted@
    }
}

impl<E> Emitter<E> {
    /// An emitter that holds no error yet.
    pub fn new() -> (r: Emitter<E>)
        ensures
            r@ == Seq::<E>::empty(),
    {
        Emitter { emitted: Vec::new() }
    }

    /// The errors emitted, first to last.
    pub fn errors(self) -> (r: Vec<E>)
        ensures
            r@ == self@,
    {
        self.emitted
    }

    /// Emits `err`: it comes behind the errors emitted before it.
    pub fn emit(&mut self, err: E)
        ensures
            final(self)@ == old(self)@.push(err),
    {
        self.emitted.push(err)
    }
}

} // verus!
