//! The cursor as a value: what it holds, what each of its operations makes of
//! it, and what holds of any run of operations.

use crate::error::{merge_alt, Located, Merge};
use crate::memo::MemoKey;
use vstd::prelude::*;

verus! {

/// What a cursor holds, but for the source and the state that it borrows.
pub struct Cursor<O, E, C> {
    /// Where the parse stands.
    pub offset: O,
    /// The failure that best explains why no alternative matched so far.
    pub alt: Option<Located<E>>,
    /// The errors that the parse has recovered from, first to last.
    pub secondary: Seq<E>,
    /// The context, absent only while a cursor over another source has it.
    pub context: Option<C>,
    /// How the parsers that were tried have fared.
    pub memo: Map<MemoKey, Option<Located<E>>>,
}

/// What an operation does to a cursor that stays with its source.
pub enum Step<O, E> {
    /// The cursor moves to an offset: by reading or skipping tokens.
    Move(O),
    /// An error that the parse recovers from is recorded.
    Emit(E),
    /// The failure of an alternative is reported.
    Alt(Option<Located<E>>),
    /// The best failure is taken out of the cursor.
    TakeAlt,
    /// The cursor is taken back to a marker: an offset and a number of errors.
    Rewind(O, nat),
    /// A scope with a context of its own ends: at an offset, with a best
    /// failure and the errors it has recovered from.
    Scope(O, Option<Located<E>>, Seq<E>),
    /// An outcome is remembered for a key.
    Remember(MemoKey, Option<Located<E>>),
    /// What is remembered for a key is forgotten.
    Forget(MemoKey),
}

impl<O, E: Merge, C> Cursor<O, E, C> {
    /// The cursor after the operation `step`.
    pub open spec fn step(self, step: Step<O, E>) -> Self {
        match step {
            Step::Move(offset) => Cursor { offset, ..self },
            Step::Emit(error) => Cursor { secondary: self.secondary.push(error), ..self },
            Step::Alt(candidate) => Cursor { alt: merge_alt(self.alt, candidate), ..self },
            Step::TakeAlt => Cursor { alt: None, ..self },
            Step::Rewind(offset, err_count) => Cursor {
                offset,
                secondary: if err_count <= self.secondary.len() {
                    self.secondary.take(err_count as int)
                } else {
                    self.secondary
                },
                ..self
            },
            Step::Scope(offset, alt, secondary) => Cursor {
                offset,
                alt: merge_alt(self.alt, alt),
                secondary: self.secondary + secondary,
                ..self
            },
            Step::Remember(key, outcome) => Cursor {
                memo: self.memo.insert(key, outcome),
                ..self
            },
            Step::Forget(key) => Cursor { memo: self.memo.remove(key), ..self },
        }
    }

    /// The cursor after the operations `steps`, first to last.
    pub open spec fn run(self, steps: Seq<Step<O, E>>) -> Self
        decreases steps.len(),
    {
        if steps.len() == 0 {
            self
        } else {
            self.step(steps.first()).run(steps.drop_first())
        }
    }

    /// The marker step that takes a cursor back to where `self` stands.
    pub open spec fn marker(self) -> Step<O, E> {
        Step::Rewind(self.offset, self.secondary.len())
    }
}

/// Whether no step of `steps` takes a cursor back to a marker of fewer than
/// `err_count` errors: to one saved before the cursor held that many.
pub open spec fn keeps_errors<O, E>(steps: Seq<Step<O, E>>, err_count: nat) -> bool {
    forall|i: int|
        0 <= i < steps.len() ==> match #[trigger] steps[i] {
            Step::Rewind(_, count) => count >= err_count,
            _ => true,
        }
}

/// Whatever a run of operations does, the errors `base` that a cursor holds
/// in front of all others are still the first that it holds afterwards, as
/// long as the run does not take the cursor back to a marker of fewer errors.
/// The context stays what it was.
pub proof fn lemma_run_keeps_errors<O, E: Merge, C>(
    cursor: Cursor<O, E, C>,
    steps: Seq<Step<O, E>>,
    base: Seq<E>,
)
    requires
        base.len() <= cursor.secondary.len(),
        cursor.secondary.take(base.len() as int) == base,
        keeps_errors(steps, base.len()),
    ensures
        base.len() <= cursor.run(steps).secondary.len(),
        cursor.run(steps).secondary.take(base.len() as int) == base,
        cursor.run(steps).context == cursor.context,
    decreases steps.len(),
{
    let n = base.len() as int;
    if steps.len() > 0 {
        let next = cursor.step(steps.first());
        let rest = steps.drop_first();
        assert(steps[0] == steps.first());
        assert(n <= next.secondary.len());
        assert(next.secondary.take(n) =~= cursor.secondary.take(n));
        assert(keeps_errors(rest, base.len())) by {
            assert forall|i: int| 0 <= i < rest.len() implies match #[trigger] rest[i] {
                Step::Rewind(_, count) => count >= base.len(),
                _ => true,
            } by {
                assert(rest[i] == steps[i + 1]);
            }
        }
        lemma_run_keeps_errors(next, rest, base);
    }
}

/// A cursor that is taken back to a marker stands where it stood when the
/// marker was saved and holds the errors it held then, whatever was done in
/// between, as long as it was not taken back to an older marker.
pub proof fn lemma_rewind_exact<O, E: Merge, C>(cursor: Cursor<O, E, C>, steps: Seq<Step<O, E>>)
    requires
        keeps_errors(steps, cursor.secondary.len()),
    ensures
        cursor.run(steps).step(cursor.marker()).offset == cursor.offset,
        cursor.run(steps).step(cursor.marker()).secondary == cursor.secondary,
        cursor.run(steps).step(cursor.marker()).context == cursor.context,
{
    assert(cursor.secondary.take(cursor.secondary.len() as int) =~= cursor.secondary);
    lemma_run_keeps_errors(cursor, steps, cursor.secondary);
}

} // verus!
