use vstd::prelude::*;

verus! {

/// The record stored under each key of the marker map. It holds nothing.
#[derive(Debug, Clone, Copy, PartialEq, Eq, Structural)]
pub struct MapEntry {}

/// The contract's persistent state: the counter, and the keys of the marker
/// map in ascending order.
#[derive(Debug, Clone)]
pub struct State {
    pub count: Option<u64>,
    pub markers: Vec<u64>,
}

/// Each key is smaller than the one after it: keys are unique and ascending.
pub open spec fn strictly_ascending(s: Seq<u64>) -> bool {
    forall|i: int, j: int| 0 <= i < j < s.len() ==> s[i] < s[j]
}

impl State {
    /// The marker keys are kept unique and in ascending order.
    pub open spec fn wf(&self) -> bool {
        strictly_ascending(self.markers@)
    }

    /// The two states hold the same counter and the same keys.
    pub open spec fn same_as(&self, other: State) -> bool {
        self.count == other.count && self.markers@ == other.markers@
    }

    /// A state with no counter and no marker records, as before
    /// instantiation.
    pub fn empty() -> (r: State)
        ensures
            r.wf(),
            r.count is None,
            r.markers@.len() == 0,
    {
        State { count: None, markers: Vec::new() }
    }
}

/// Two ascending key sequences with the same members are the same sequence.
pub proof fn lemma_ascending_unique(a: Seq<u64>, b: Seq<u64>)
    requires
        strictly_ascending(a),
        strictly_ascending(b),
        forall|k: u64| a.contains(k) <==> b.contains(k),
    ensures
        a == b,
    decreases a.len(),
{
    if a.len() == 0 {
        if b.len() > 0 {
            assert(b.contains(b[0]));
        }
        assert(a =~= b);
    } else {
        assert(a.contains(a[0]));
        assert(b.contains(b[0]));
        let i = choose|i: int| 0 <= i < b.len() && b[i] == a[0];
        let j = choose|j: int| 0 <= j < a.len() && a[j] == b[0];
        assert(a[0] == b[0]);
        let ta = a.drop_first();
        let tb = b.drop_first();
        assert forall|k: u64| ta.contains(k) <==> tb.contains(k) by {
            if ta.contains(k) {
                let m = choose|m: int| 0 <= m < ta.len() && ta[m] == k;
                assert(a[m + 1] == k);
                assert(a.contains(k));
                let n = choose|n: int| 0 <= n < b.len() && b[n] == k;
                assert(n != 0);
                assert(tb[n - 1] == k);
            }
            if tb.contains(k) {
                let m = choose|m: int| 0 <= m < tb.len() && tb[m] == k;
                assert(b[m + 1] == k);
                assert(b.contains(k));
                let n = choose|n: int| 0 <= n < a.len() && a[n] == k;
                assert(n != 0);
                assert(ta[n - 1] == k);
            }
        }
        lemma_ascending_unique(ta, tb);
        assert(a =~= b) by {
            assert forall|x: int| 0 <= x < a.len() implies a[x] == b[x] by {
                if x > 0 {
                    assert(a[x] == ta[x - 1]);
                    assert(b[x] == tb[x - 1]);
                }
            }
        }
    }
}

/// A well-formed state is fixed by its counter and the set of its keys: the
/// contracts that say which keys a handler leaves say what state it leaves.
pub proof fn lemma_state_determined_by_keys(s1: State, s2: State)
    requires
        s1.wf(),
        s2.wf(),
        s1.count == s2.count,
        forall|k: u64| s1.markers@.contains(k) <==> s2.markers@.contains(k),
    ensures
        s1.same_as(s2),
{
    lemma_ascending_unique(s1.markers@, s2.markers@);
}

} // verus!
