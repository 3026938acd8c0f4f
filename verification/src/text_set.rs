//! Sets of texts.

use vstd::hash_map::StringHashMap;
use vstd::prelude::*;
use vstd::string::*;

verus! {

/// A set of texts.
pub struct TextSet {
    entries: StringHashMap<bool>,
}

impl View for TextSet {
    type V = Set<Seq<char>>;

    closed spec fn view(&self) -> Set<Seq<char>> {
        self.entries@.dom()
    }
}

impl TextSet {
    /// The empty set.
    pub fn new() -> (r: TextSet)
        ensures
            r@ == Set::<Seq<char>>::empty(),
    {
        let r = TextSet { entries: StringHashMap::new() };
        assert(r@ =~= Set::<Seq<char>>::empty());
        r
    }

    /// Whether a text is in the set.
    pub fn contains(&self, t: &str) -> (r: bool)
        ensures
            r == self@.contains(t@),
    {
        self.entries.contains_key(t)
    }

    /// Adds a text, and tells whether it was not in the set.
    pub fn insert(&mut self, t: &str) -> (added: bool)
        ensures
            final(self)@ == old(self)@.insert(t@),
            added == !old(self)@.contains(t@),
    {
        let known = self.entries.contains_key(t);
        self.entries.insert(t.to_owned(), true);
        assert(self@ =~= old(self)@.insert(t@));
        !known
    }

    /// Takes away a text, and tells whether it was in the set.
    pub fn remove(&mut self, t: &str) -> (removed: bool)
        ensures
            final(self)@ == old(self)@.remove(t@),
            removed == old(self)@.contains(t@),
    {
        let known = self.entries.contains_key(t);
        self.entries.remove(t);
        assert(self@ =~= old(self)@.remove(t@));
        known
    }
}

} // verus!
