//! What a cursor remembers of the parsers that have been tried: for a place
//! in the source and a parser, how the parser fared there.
//!
//! The outcomes are kept in a list, and a hash table of the crate `hashbrown`
//! finds, for a place and a parser, the entry of the list that holds theirs.

use crate::error::Located;
use vstd::prelude::*;

verus! {

/// A place in the source and a parser: the integer of an offset, and the
/// number by which the caller tells its parsers apart.
pub type MemoKey = (usize, usize);

/// A `HashMap` of `hashbrown` from keys to indices: for each key it holds,
/// the index of an entry of the list. What it holds is known to the proofs
/// only through `memo_slots` and the four functions below.
#[verifier::external_body]
pub struct MemoTable {
    map: hashbrown::HashMap<(usize, usize), usize>,
}

/// What the hash table holds: its keys, and for each the index stored with it.
pub uninterp spec fn memo_slots(table: MemoTable) -> Map<(usize, usize), usize>;

/// `HashMap::default` of `hashbrown`: a table that holds nothing.
#[verifier::external_body]
fn table_new() -> (table: MemoTable)
    ensures
        (memo_slots(table) == Map::<(usize, usize), usize>::empty()),
{
    MemoTable { map: hashbrown::HashMap::default() }
}

/// `HashMap::get` of `hashbrown`: the index stored with `key`, none where the
/// table does not hold the key.
#[verifier::external_body]
fn table_get(table: &MemoTable, key: MemoKey) -> (slot: Option<usize>)
    ensures
        slot == (if memo_slots(*table).contains_key(key) {
            Some(memo_slots(*table)[key])
        } else {
            None
        }),
{
    table.map.get(&key).copied()
}

/// `HashMap::insert` of `hashbrown`: the table then holds `slot` with `key`,
/// in place of what it held with that key, and otherwise what it held.
#[verifier::external_body]
fn table_insert(table: &mut MemoTable, key: MemoKey, slot: usize)
    ensures
        memo_slots(*final(table)) == memo_slots(*old(table)).insert(key, slot),
{
    table.map.insert(key, slot);
}

/// `HashMap::remove` of `hashbrown`: the table no longer holds `key`, and
/// otherwise what it held.
#[verifier::external_body]
fn table_remove(table: &mut MemoTable, key: MemoKey)
    ensures
        memo_slots(*final(table)) == memo_slots(*old(table)).remove(key),
{
    table.map.remove(&key);
}

/// How parsers fared at the places where they were tried.
///
/// For a key, the memo holds nothing, or an outcome: the failure that the
/// parser ended with there, or none, which is also what it holds while the
/// parser is still at work.
pub struct Memo<E> {
    table: MemoTable,
    outcomes: Vec<Option<Located<E>>>,
}

impl<E> View for Memo<E> {
    type V = Map<MemoKey, Option<Located<E>>>;

    /// The outcome held for each key.
    closed spec fn view(&self) -> Map<MemoKey, Option<Located<E>>> {
        Map::new(
            |key: MemoKey| memo_slots(self.table).contains_key(key),
            |key: MemoKey| self.outcomes@[memo_slots(self.table)[key] as int],
        )
    }
}

impl<E> Memo<E> {
    /// Each index in the table is one of an entry of the list.
    pub closed spec fn wf(&self) -> bool {
        forall|key: MemoKey| #[trigger]
            memo_slots(self.table).contains_key(key) ==> memo_slots(self.table)[key]
                < self.outcomes@.len()
    }

    /// A memo that holds nothing.
    pub fn new() -> (memo: Self)
        ensures
            memo.wf(),
            memo@ == Map::<MemoKey, Option<Located<E>>>::empty(),
    {
        let memo = Memo { table: table_new(), outcomes: Vec::new() };
        assert(memo@ =~= Map::<MemoKey, Option<Located<E>>>::empty());
        memo
    }

    /// The outcome held for `key`, if any is.
    pub fn get(&self, key: MemoKey) -> (outcome: Option<&Option<Located<E>>>)
        requires
            self.wf(),
        ensures
            match outcome {
                Some(outcome) => self@.contains_key(key) && self@[key] == *outcome,
                None => !self@.contains_key(key),
            },
    {
        match table_get(&self.table, key) {
            Some(slot) => Some(&self.outcomes[slot]),
            None => None,
        }
    }

    /// Holds `outcome` for `key` from now on, in place of what was held for it.
    pub fn insert(&mut self, key: MemoKey, outcome: Option<Located<E>>)
        requires
            old(self).wf(),
        ensures
            final(self).wf(),
            final(self)@ == old(self)@.insert(key, outcome),
    {
        let slot = self.outcomes.len();
        self.outcomes.push(outcome);
        table_insert(&mut self.table, key, slot);
        assert(self@ =~= old(self)@.insert(key, outcome));
    }

    /// Holds nothing for `key` from now on.
    pub fn remove(&mut self, key: MemoKey)
        requires
            old(self).wf(),
        ensures
            final(self).wf(),
            final(self)@ == old(self)@.remove(key),
    {
        table_remove(&mut self.table, key);
        assert(self@ =~= old(self)@.remove(key));
    }
}

} // verus!
