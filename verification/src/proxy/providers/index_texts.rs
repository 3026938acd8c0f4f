//! Texts kept by content-block index.

use std::collections::HashMap;
use vstd::prelude::*;

verus! {

broadcast use vstd::std_specs::hash::group_hash_axioms;

/// Texts, each under a content-block index.
pub struct IndexTexts {
    entries: HashMap<u32, String>,
}

impl View for IndexTexts {
    type V = Map<u32, Seq<char>>;

    closed spec fn view(&self) -> Map<u32, Seq<char>> {
        self.entries@.map_values(|t: String| t@)
    }
}

impl IndexTexts {
    /// No text at all.
    pub fn new() -> (r: IndexTexts)
        ensures
            r@ == Map::<u32, Seq<char>>::empty(),
    {
        let r = IndexTexts { entries: HashMap::new() };
        assert(r@ =~= Map::<u32, Seq<char>>::empty());
        r
    }

    /// Whether there is a text under `index`.
    pub fn holds(&self, index: u32) -> (r: bool)
        ensures
            r == self@.dom().contains(index),
    {
        self.entries.contains_key(&index)
    }

    /// The text under `index`.
    pub fn get(&self, index: u32) -> (r: Option<&String>)
        ensures
            match r {
                Some(t) => self@.dom().contains(index) && self@[index] == t@,
                None => !self@.dom().contains(index),
            },
    {
        self.entries.get(&index)
    }

    /// Puts `t` under `index`, in place of what stood there.
    pub fn insert(&mut self, index: u32, t: String)
        ensures
            final(self)@ == old(self)@.insert(index, t@),
    {
        self.entries.insert(index, t);
        assert(self@ =~= old(self)@.insert(index, t@));
    }

    /// Takes away what stands under `index`.
    pub fn remove(&mut self, index: u32) -> (r: Option<String>)
        ensures
            final(self)@ == old(self)@.remove(index),
            match r {
                Some(t) => old(self)@.dom().contains(index) && old(self)@[index] == t@,
                None => !old(self)@.dom().contains(index),
            },
    {
        let r = self.entries.remove(&index);
        assert(self@ =~= old(self)@.remove(index));
        r
    }
}

} // verus!
