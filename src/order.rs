//! Track orderings: permutations of indices over a shared track collection.
use vstd::prelude::*;

verus! {

/// `s` holds each index below its length exactly once.
pub open spec fn is_permutation(s: Seq<usize>) -> bool {
    &&& s.no_duplicates()
    &&& forall|i: int| 0 <= i < s.len() ==> (#[trigger] s[i] as int) < s.len()
}

/// The indices `0, 1, ..., n - 1` in ascending order.
pub open spec fn ascending(n: nat) -> Seq<usize> {
    Seq::new(n, |i: int| i as usize)
}

/// `s` with its entries at `i` and `j` exchanged.
pub open spec fn swapped(s: Seq<usize>, i: int, j: int) -> Seq<usize> {
    s.update(i, s[j]).update(j, s[i])
}

proof fn lemma_ascending_is_permutation(n: nat)
    requires
        n <= usize::MAX,
    ensures
        is_permutation(ascending(n)),
{
    assert(ascending(n).no_duplicates());
}

proof fn lemma_swap_keeps_elements(s: Seq<usize>, i: int, j: int)
    requires
        0 <= i < s.len(),
        0 <= j < s.len(),
    ensures
        swapped(s, i, j).len() == s.len(),
        swapped(s, i, j).to_set() == s.to_set(),
        is_permutation(s) ==> is_permutation(swapped(s, i, j)),
{
    let t = swapped(s, i, j);
    assert forall|x: usize| t.contains(x) implies s.contains(x) by {
        let k = choose|k: int| 0 <= k < t.len() && t[k] == x;
        if k == j {
            assert(s[i] == x);
        } else if k == i {
            assert(s[j] == x);
        } else {
            assert(s[k] == x);
        }
    }
    assert forall|x: usize| s.contains(x) implies t.contains(x) by {
        let k = choose|k: int| 0 <= k < s.len() && s[k] == x;
        if k == j {
            assert(t[i] == x);
        } else if k == i {
            assert(t[j] == x);
        } else {
            assert(t[k] == x);
        }
    }
    assert(t.to_set() =~= s.to_set());
    if is_permutation(s) {
        assert forall|a: int, b: int| 0 <= a < t.len() && 0 <= b < t.len() && a != b implies t[a]
            != t[b] by {
            let pa = if a == i {
                j
            } else if a == j {
                i
            } else {
                a
            };
            let pb = if b == i {
                j
            } else if b == j {
                i
            } else {
                b
            };
            assert(t[a] == s[pa]);
            assert(t[b] == s[pb]);
        }
        assert forall|a: int| 0 <= a < t.len() implies (#[trigger] t[a] as int) < t.len() by {
            if a == i {
                assert(t[a] == s[j]);
            } else if a == j {
                assert(t[a] == s[i]);
            } else {
                assert(t[a] == s[a]);
            }
        }
    }
}

/// The order `s` takes after a Fisher-Yates pass that has `i` entries left
/// to place and has used `k` draws: the entry at `i - 1` is exchanged with the
/// one at `draws[k] % i` (or stays, when the draws have run out), then the
/// pass goes on with `i - 1` entries.
pub open spec fn shuffle_steps(s: Seq<usize>, draws: Seq<usize>, i: nat, k: nat) -> Seq<usize>
    decreases i,
{
    if i <= 1 {
        s
    } else {
        let i1 = (i - 1) as nat;
        let j: int = if k < draws.len() {
            draws[k as int] as int % (i1 as int + 1)
        } else {
            i1 as int
        };
        shuffle_steps(swapped(s, i1 as int, j), draws, i1, k + 1)
    }
}

/// What `sort` makes of the order `s`: ascending indices over its length.
pub open spec fn sorted_order(s: Seq<usize>) -> Seq<usize> {
    ascending(s.len())
}

/// Sorting an ordering a second time changes nothing: `sort(); sort()` is `sort()`.
pub proof fn lemma_sort_idempotent(s: Seq<usize>)
    ensures
        sorted_order(sorted_order(s)) == sorted_order(s),
{
}

/// A play order: a permutation of the indices of a track collection.
#[derive(Debug, Clone)]
pub struct TrackOrder {
    order: Vec<usize>,
}

impl View for TrackOrder {
    type V = Seq<usize>;

    closed spec fn view(&self) -> Seq<usize> {
        self.order@
    }
}

impl TrackOrder {
    /// Every index below the length occurs exactly once.
    pub open spec fn wf(&self) -> bool {
        is_permutation(self@)
    }

    /// The identity order over `n` tracks.
    pub fn new(n: usize) -> (r: TrackOrder)
        ensures
            r.wf(),
            r@ == ascending(n as nat),
    {
        let mut order: Vec<usize> = Vec::new();
        let mut i: usize = 0;
        while i < n
            invariant
                i <= n,
                order@ == ascending(i as nat),
            decreases n - i,
        {
            order.push(i);
            i = i + 1;
            assert(order@ =~= ascending(i as nat));
        }
        proof {
            lemma_ascending_is_permutation(n as nat);
        }
        TrackOrder { order }
    }

    pub fn len(&self) -> (r: usize)
        ensures
            r == self@.len(),
    {
        self.order.len()
    }

    /// The track index at play position `pos`.
    pub fn get(&self, pos: usize) -> (r: Option<usize>)
        ensures
            pos < self@.len() ==> r == Some(self@[pos as int]),
            pos >= self@.len() ==> r is None,
    {
        if pos < self.order.len() {
            Some(self.order[pos])
        } else {
            None
        }
    }

    /// The track indices in play order.
    pub fn indices(&self) -> (r: Vec<usize>)
        ensures
            r@ == self@,
    {
        self.order.clone()
    }

    /// Shuffles the order in place (Fisher-Yates).
    ///
    /// The `k`-th swap exchanges the entry at `n - 1 - k` with the one at
    /// `draws[k] % (n - k)`; a missing draw leaves the entry in place. Uniform
    /// draws give a uniform permutation.
    pub fn shuffle(&mut self, draws: &Vec<usize>)
        requires
            old(self).wf(),
        ensures
            final(self).wf(),
            final(self)@.len() == old(self)@.len(),
            final(self)@.to_set() == old(self)@.to_set(),
            final(self)@ == shuffle_steps(old(self)@, draws@, old(self)@.len(), 0),
    {
        let n = self.order.len();
        let mut i: usize = n;
        let mut k: usize = 0;
        while i > 1
            invariant
                i <= n,
                k == n - i,
                self.order@.len() == n,
                shuffle_steps(old(self)@, draws@, n as nat, 0) == shuffle_steps(
                    self.order@,
                    draws@,
                    i as nat,
                    k as nat,
                ),
                is_permutation(self.order@),
                self.order@.to_set() == old(self)@.to_set(),
            decreases i,
        {
            i = i - 1;
            let j: usize = if k < draws.len() {
                draws[k] % (i + 1)
            } else {
                i
            };
            let ghost prev = self.order@;
            proof {
                lemma_swap_keeps_elements(prev, i as int, j as int);
            }
            let a = self.order[i];
            let b = self.order[j];
            self.order[i] = b;
            self.order[j] = a;
            assert(self.order@ =~= swapped(prev, i as int, j as int));
            k = k + 1;
        }
    }

    /// Restores ascending index order.
    pub fn sort(&mut self)
        requires
            old(self).wf(),
        ensures
            final(self).wf(),
            final(self)@ == sorted_order(old(self)@),
    {
        let n = self.order.len();
        *self = TrackOrder::new(n);
    }
}

} // verus!
