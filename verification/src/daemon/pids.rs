//! Sets of processes, by their ids.

use vstd::prelude::*;
use vstd::string::*;
use crate::text;

verus! {

/// Whether a list is in ascending order, with nothing in it twice.
pub open spec fn ascending(pids: Seq<u32>) -> bool {
    forall|i: int, j: int| 0 <= i < j < pids.len() ==> pids[i] < pids[j]
}

/// A set of process ids.
#[derive(Debug)]
pub struct PidSet {
    pids: Vec<u32>,
}

impl View for PidSet {
    type V = Seq<u32>;

    /// The ids in ascending order.
    closed spec fn view(&self) -> Seq<u32> {
        self.pids@
    }
}

/// The decimal numerals of a list of ids.
pub open spec fn pid_texts(pids: Seq<u32>) -> Seq<Seq<char>> {
    Seq::new(pids.len(), |i: int| text::decimal(pids[i] as nat))
}

/// The ids of a set, one after the other.
pub open spec fn pid_list(pids: Seq<u32>) -> Seq<char> {
    text::join(pid_texts(pids), ", "@)
}

/// Whether a set holds the ids of a list.
pub open spec fn is_set_of(pids: Seq<u32>, all: Seq<u32>) -> bool {
    &&& ascending(pids)
    &&& forall|p: u32| pids.contains(p) <==> all.contains(p)
}

impl PidSet {
    /// A set is in ascending order.
    #[verifier::type_invariant]
    closed spec fn is_ascending(self) -> bool {
        ascending(self.pids@)
    }

    /// The empty set.
    pub fn new() -> (r: PidSet)
        ensures
            r@ == Seq::<u32>::empty(),
    {
        PidSet { pids: Vec::new() }
    }

    /// Whether the set is empty.
    pub fn is_empty(&self) -> (r: bool)
        ensures
            r == (self@.len() == 0),
    {
        self.pids.len() == 0
    }

    /// Whether an id is in the set.
    pub fn contains(&self, pid: u32) -> (r: bool)
        ensures
            r == self@.contains(pid),
    {
        let mut i: usize = 0;
        while i < self.pids.len()
            invariant
                i <= self.pids@.len(),
                forall|k: int| 0 <= k < i ==> self.pids@[k] != pid,
            decreases self.pids@.len() - i,
        {
            if self.pids[i] == pid {
                return true;
            }
            i = i + 1;
        }
        false
    }

    /// The set of the ids of a list.
    pub fn from_list(list: &Vec<u32>) -> (r: PidSet)
        ensures
            is_set_of(r@, list@),
    {
        let mut r = PidSet::new();
        let mut i: usize = 0;
        while i < list.len()
            invariant
                i <= list@.len(),
                ascending(r@),
                forall|p: u32| r@.contains(p) <==> list@.take(i as int).contains(p),
            decreases list@.len() - i,
        {
            r = r.with(list[i]);
            let ghost seen = list@.take(i as int);
            let ghost more = list@.take(i + 1);
            assert forall|p: u32| r@.contains(p) <==> more.contains(p) by {
                assert(more == seen.push(list@[i as int]));
                if seen.contains(p) {
                    let k = choose|k: int| 0 <= k < seen.len() && seen[k] == p;
                    assert(more[k] == p);
                }
                if p == list@[i as int] {
                    assert(more[i as int] == p);
                }
                if more.contains(p) {
                    let k = choose|k: int| 0 <= k < more.len() && more[k] == p;
                    if k < i {
                        assert(seen[k] == p);
                    }
                }
            }
            i = i + 1;
        }
        assert(list@.take(i as int) == list@);
        r
    }

    /// The set with one more id.
    pub fn with(self, pid: u32) -> (r: PidSet)
        ensures
            ascending(r@),
            forall|p: u32| r@.contains(p) <==> self@.contains(p) || p == pid,
    {
        proof {
            use_type_invariant(&self);
        }
        let ghost before = self.pids@;
        let mut pids = self.pids;
        let mut i: usize = 0;
        while i < pids.len() && pids[i] < pid
            invariant
                i <= pids@.len(),
                pids@ == before,
                forall|k: int| 0 <= k < i ==> pids@[k] < pid,
            decreases pids@.len() - i,
        {
            i = i + 1;
        }
        if i < pids.len() && pids[i] == pid {
            assert(before[i as int] == pid);
            return PidSet { pids };
        }
        pids.insert(i, pid);
        proof {
            assert(pids@ =~= before.insert(i as int, pid));
            assert forall|a: int, b: int| 0 <= a < b < pids@.len() implies pids@[a] < pids@[b] by {
                if a < i {
                    assert(pids@[a] == before[a]);
                } else if a > i {
                    assert(pids@[a] == before[a - 1]);
                }
                if b < i {
                    assert(pids@[b] == before[b]);
                } else if b > i {
                    assert(pids@[b] == before[b - 1]);
                }
            }
            assert forall|p: u32| #![auto] pids@.contains(p) <==> self@.contains(p) || p == pid by {
                assert(self@.contains(p) == before.contains(p));
                if before.contains(p) {
                    let k = choose|k: int| 0 <= k < before.len() && before[k] == p;
                    if k < i {
                        assert(pids@[k] == p);
                    } else {
                        assert(pids@[k + 1] == p);
                    }
                }
                if p == pid {
                    assert(pids@[i as int] == p);
                }
                if pids@.contains(p) {
                    let k = choose|k: int| 0 <= k < pids@.len() && pids@[k] == p;
                    if k < i {
                        assert(before[k] == p);
                    } else if k > i {
                        assert(before[k - 1] == p);
                    }
                }
            }
        }
        let r = PidSet { pids };
        assert(r@ == pids@);
        r
    }

    /// The ids of the set that are neither `owner` nor in a list.
    pub fn beyond(&self, owner: u32, list: &Vec<u32>) -> (r: PidSet)
        ensures
            r@ == self@.filter(|p: u32| p != owner && !list@.contains(p)),
    {
        proof {
            use_type_invariant(self);
        }
        let ghost keep = |p: u32| p != owner && !list@.contains(p);
        let mut pids: Vec<u32> = Vec::new();
        let mut i: usize = 0;
        assert(self.pids@.take(0).filter(keep) =~= Seq::empty()) by {
            reveal(Seq::filter);
        }
        while i < self.pids.len()
            invariant
                i <= self.pids@.len(),
                ascending(self.pids@),
                keep == (|p: u32| p != owner && !list@.contains(p)),
                pids@ == self.pids@.take(i as int).filter(keep),
                ascending(pids@),
                forall|k: int| 0 <= k < pids@.len() && i < self.pids@.len() ==> pids@[k]
                    < self.pids@[i as int],
            decreases self.pids@.len() - i,
        {
            let pid: u32 = self.pids[i];
            assert(self.pids@.take(i + 1).drop_last() == self.pids@.take(i as int));
            assert(self.pids@.take(i + 1).last() == pid);
            proof {
                reveal(Seq::filter);
            }
            if pid != owner && !is_listed(list, pid) {
                pids.push(pid);
            }
            i = i + 1;
        }
        assert(self.pids@.take(i as int) == self.pids@);
        PidSet { pids }
    }

    /// The ids of the set, one after the other.
    pub fn text(&self) -> (r: String)
        ensures
            r@ == pid_list(self@),
    {
        let mut texts: Vec<String> = Vec::new();
        let mut i: usize = 0;
        while i < self.pids.len()
            invariant
                i <= self.pids@.len(),
                texts@.len() == i,
                forall|k: int| 0 <= k < i ==> (#[trigger] texts@[k])@ == text::decimal(
                    self.pids@[k] as nat,
                ),
            decreases self.pids@.len() - i,
        {
            texts.push(text::number_text(self.pids[i] as u64));
            i = i + 1;
        }
        assert(text::views(texts@) =~= pid_texts(self@));
        text::joined(&texts, ", ")
    }
}

/// Whether an id is in a list.
pub fn is_listed(list: &Vec<u32>, pid: u32) -> (r: bool)
    ensures
        r == list@.contains(pid),
{
    let mut i: usize = 0;
    while i < list.len()
        invariant
            i <= list@.len(),
            forall|k: int| 0 <= k < i ==> list@[k] != pid,
        decreases list@.len() - i,
    {
        if list[i] == pid {
            return true;
        }
        i = i + 1;
    }
    false
}

} // verus!
