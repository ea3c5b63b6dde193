//! A lookup from names to the slots they were given, kept in a hash map.

use vstd::prelude::*;

verus! {

/// A hash map from names to slot numbers: a `hashbrown::HashMap` with
/// `String` keys. The verifier does not look inside; what it holds is
/// `index_entries`, and the three functions below say what the map's own
/// `new`, `get` and `insert` do to it.
#[verifier::external_body]
pub struct NameIndex {
    map: hashbrown::HashMap<String, usize>,
}

/// What a `NameIndex` holds: the slot of every name that has one.
pub uninterp spec fn index_entries(index: NameIndex) -> Map<Seq<char>, usize>;

/// The index that holds no name.
pub open spec fn no_entries() -> Map<Seq<char>, usize> {
    Map::empty()
}

impl NameIndex {
    /// Trusted: `hashbrown::HashMap::new` makes a map without entries.
    #[verifier::external_body]
    pub(crate) fn new() -> (r: NameIndex)
        ensures
            index_entries(r) == no_entries(),
    {
        NameIndex { map: hashbrown::HashMap::new() }
    }

    /// Trusted: `hashbrown::HashMap::get` returns the value stored under a
    /// key that is equal to the one asked for, and `None` where the map has
    /// no such key; two strings are equal when their characters are.
    #[verifier::external_body]
    pub(crate) fn get(&self, name: &str) -> (r: Option<usize>)
        ensures
            r == if index_entries(*self).dom().contains(name@) {
                Some(index_entries(*self)[name@])
            } else {
                None
            },
    {
        self.map.get(name).copied()
    }

    /// Trusted: `hashbrown::HashMap::insert` stores the value under the key,
    /// in place of the value that an equal key had, and leaves every other
    /// entry as it was.
    #[verifier::external_body]
    pub(crate) fn insert(&mut self, name: &str, slot: usize)
        ensures
            index_entries(*final(self)) == index_entries(*old(self)).insert(name@, slot),
    {
        self.map.insert(name.to_owned(), slot);
    }
}

} // verus!
