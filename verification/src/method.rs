//! The read-only resolution capability threaded through every conversion.

use vstd::prelude::*;

use crate::frame::RecipientId;

verus! {

/// Read-only resolution context: maps an opaque key to a resolved entity.
///
/// Built by a collaborator before message validation begins and shared by
/// reference across all conversions of one backup file. Absence of a key
/// is not an error at this layer; each caller decides whether an
/// unresolvable reference is fatal.
pub trait Lookup<K, V> {
    /// Mathematical content of the context: what each key resolves to.
    spec fn spec_lookup(&self, key: K) -> Option<V>;

    /// Resolves `key`, returning `None` when it is not known.
    fn lookup(&self, key: &K) -> (value: Option<V>)
        ensures
            value == self.spec_lookup(*key),
    ;
}

/// What a sequence of key/value pairs resolves `key` to: the value of the
/// most recently appended pair carrying `key`, if any.
pub open spec fn pairs_lookup<V>(pairs: Seq<(RecipientId, V)>, key: RecipientId) -> Option<V>
    decreases pairs.len(),
{
    if pairs.len() == 0 {
        None
    } else if pairs.last().0 == key {
        Some(pairs.last().1)
    } else {
        pairs_lookup(pairs.drop_last(), key)
    }
}

/// A concrete resolution context over recipient identifiers: a recipient
/// table built once per backup file, then only read.
pub struct RecipientTable<V> {
    pub pairs: Vec<(RecipientId, V)>,
}

impl<V: Copy> RecipientTable<V> {
    /// Creates an empty table: no key resolves.
    pub fn new() -> (table: RecipientTable<V>)
        ensures
            forall|key: RecipientId| table.spec_lookup(key) is None,
    {
        let table = RecipientTable { pairs: Vec::new() };
        proof {
            assert forall|key: RecipientId| table.spec_lookup(key) is None by {
                assert(pairs_lookup(table.pairs@, key) is None);
            }
        }
        table
    }

    /// Binds `key` to `value`; a later binding for the same key wins.
    pub fn insert(&mut self, key: RecipientId, value: V)
        ensures
            final(self).spec_lookup(key) == Some(value),
            forall|other: RecipientId|
                other != key ==> final(self).spec_lookup(other) == old(self).spec_lookup(other),
    {
        self.pairs.push((key, value));
        proof {
            assert(self.pairs@.drop_last() =~= old(self).pairs@);
        }
    }
}

impl<V: Copy> Lookup<RecipientId, V> for RecipientTable<V> {
    open spec fn spec_lookup(&self, key: RecipientId) -> Option<V> {
        pairs_lookup(self.pairs@, key)
    }

    fn lookup(&self, key: &RecipientId) -> (value: Option<V>) {
        let mut i: usize = self.pairs.len();
        proof {
            assert(self.pairs@.take(i as int) =~= self.pairs@);
        }
        while i > 0
            invariant
                i <= self.pairs.len(),
                pairs_lookup(self.pairs@, *key) == pairs_lookup(
                    self.pairs@.take(i as int),
                    *key,
                ),
            decreases i,
        {
            i = i - 1;
            if self.pairs[i].0 == *key {
                return Some(self.pairs[i].1);
            }
            proof {
                assert(self.pairs@.take(i + 1).drop_last() =~= self.pairs@.take(i as int));
            }
        }
        None
    }
}

} // verus!
