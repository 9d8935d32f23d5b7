//! The stable order of things by their keys.
use vstd::prelude::*;

verus! {

/// What things are ordered by: three numbers, the first of which counts most.
#[derive(Clone, Copy, Debug, PartialEq, Eq, Structural)]
pub struct SortKey {
    pub major: i128,
    pub middle: i128,
    pub minor: i128,
}

impl SortKey {
    /// Whether this key comes before another.
    pub open spec fn before(self, other: SortKey) -> bool {
        self.major < other.major || (self.major == other.major && (self.middle < other.middle || (
        self.middle == other.middle && self.minor < other.minor)))
    }

    fn is_before(&self, other: &SortKey) -> (r: bool)
        ensures
            r == self.before(*other),
    {
        self.major < other.major || (self.major == other.major && (self.middle < other.middle || (
        self.middle == other.middle && self.minor < other.minor)))
    }
}

/// Where a key goes among keys that are in order: behind all that do not come after it.
pub open spec fn place(order: Seq<int>, keys: Seq<SortKey>, key: SortKey) -> int
    decreases order.len(),
{
    if order.len() > 0 && key.before(keys[order.last()]) {
        place(order.drop_last(), keys, key)
    } else {
        order.len() as int
    }
}

/// The positions of the first keys in their order; keys that are alike keep theirs.
pub open spec fn order_of_first(keys: Seq<SortKey>, n: int) -> Seq<int>
    decreases n,
{
    if n <= 0 {
        Seq::empty()
    } else {
        let front = order_of_first(keys, n - 1);
        front.insert(place(front, keys, keys[n - 1]), n - 1)
    }
}

/// The positions of keys in their order; keys that are alike keep theirs.
pub open spec fn order_of(keys: Seq<SortKey>) -> Seq<int> {
    order_of_first(keys, keys.len() as int)
}

/// Positions as integers.
pub open spec fn as_ints(order: Seq<usize>) -> Seq<int> {
    Seq::new(order.len(), |i: int| order[i] as int)
}

proof fn place_bounds(order: Seq<int>, keys: Seq<SortKey>, key: SortKey)
    ensures
        0 <= place(order, keys, key) <= order.len(),
        forall|i: int|
            place(order, keys, key) <= i < order.len() ==> key.before(keys[#[trigger] order[i]]),
        place(order, keys, key) > 0 ==> !key.before(
            keys[order[place(order, keys, key) - 1]],
        ),
    decreases order.len(),
{
    if order.len() > 0 && key.before(keys[order.last()]) {
        let front = order.drop_last();
        place_bounds(front, keys, key);
        assert forall|i: int| place(order, keys, key) <= i < order.len() implies key.before(
            keys[#[trigger] order[i]],
        ) by {
            if i < front.len() {
                assert(front[i] == order[i]);
            }
        }
        let at = place(order, keys, key);
        if at > 0 {
            assert(front[at - 1] == order[at - 1]);
        }
    }
}

/// The positions of keys in their order; keys that are alike keep theirs.
pub fn stable_order(keys: &Vec<SortKey>) -> (r: Vec<usize>)
    ensures
        as_ints(r@) == order_of(keys@),
{
    let mut order: Vec<usize> = Vec::new();
    let mut n: usize = 0;
    assert(as_ints(order@) =~= Seq::empty());
    while n < keys.len()
        invariant
            n <= keys.len(),
            order@.len() == n,
            as_ints(order@) == order_of_first(keys@, n as int),
            forall|i: int| 0 <= i < order@.len() ==> (#[trigger] order@[i]) < n,
        decreases keys.len() - n,
    {
        let ghost front = as_ints(order@);
        let mut at: usize = order.len();
        assert(front.take(at as int) =~= front);
        while at > 0 && keys[n].is_before(&keys[order[at - 1]])
            invariant
                at <= order@.len(),
                n < keys@.len(),
                order@.len() == n,
                front == as_ints(order@),
                forall|i: int| 0 <= i < order@.len() ==> (#[trigger] order@[i]) < n,
                place(front, keys@, keys@[n as int]) == place(
                    front.take(at as int),
                    keys@,
                    keys@[n as int],
                ),
            decreases at,
        {
            assert(front.take(at as int).drop_last() =~= front.take(at - 1));
            at = at - 1;
        }
        assert(place(front, keys@, keys@[n as int]) == at);
        let ghost before = order@;
        order.insert(at, n);
        assert(as_ints(order@) =~= front.insert(at as int, n as int));
        assert forall|i: int| 0 <= i < order@.len() implies (#[trigger] order@[i]) < n + 1 by {
            if i < at {
                assert(order@[i] == before[i]);
            } else if i > at {
                assert(order@[i] == before[i - 1]);
            }
        }
        n = n + 1;
    }
    order
}

// ---------------------------------------------------------------------------
// Laws
// ---------------------------------------------------------------------------
/// Whether positions are all different and those below `n`.
pub open spec fn is_permutation(order: Seq<int>, n: int) -> bool {
    &&& order.len() == n
    &&& forall|i: int| 0 <= i < n ==> 0 <= #[trigger] order[i] < n
    &&& forall|i: int, j: int| 0 <= i < j < n ==> #[trigger] order[i] != #[trigger] order[j]
    &&& forall|k: int| 0 <= k < n ==> order.contains(k)
}

/// Whether keys at positions do not come before those of earlier positions, and keep their order
/// where they are alike.
pub open spec fn is_stably_sorted(order: Seq<int>, keys: Seq<SortKey>) -> bool {
    forall|i: int, j: int|
        0 <= i < j < order.len() ==> {
            let a = #[trigger] order[i];
            let b = #[trigger] order[j];
            keys[a].before(keys[b]) || (keys[a] == keys[b] && a < b)
        }
}

/// The order of keys holds every position once, goes from the first key to the last, and keeps
/// the order of keys that are alike.
pub proof fn order_is_sorted_and_stable(keys: Seq<SortKey>)
    ensures
        is_permutation(order_of(keys), keys.len() as int),
        is_stably_sorted(order_of(keys), keys),
{
    first_order_is_sorted(keys, keys.len() as int);
}

proof fn first_order_is_sorted(keys: Seq<SortKey>, n: int)
    requires
        0 <= n <= keys.len(),
    ensures
        is_permutation(order_of_first(keys, n), n),
        is_stably_sorted(order_of_first(keys, n), keys),
    decreases n,
{
    if n > 0 {
        let front = order_of_first(keys, n - 1);
        first_order_is_sorted(keys, n - 1);
        let key = keys[n - 1];
        place_bounds(front, keys, key);
        let at = place(front, keys, key);
        let order = order_of_first(keys, n);
        assert(order == front.insert(at, n - 1));
        assert forall|k: int| 0 <= k < n implies order.contains(k) by {
            if k == n - 1 {
                assert(order[at] == k);
            } else {
                assert(front.contains(k));
                let i = choose|i: int| 0 <= i < front.len() && front[i] == k;
                if i < at {
                    assert(order[i] == k);
                } else {
                    assert(order[i + 1] == k);
                }
            }
        }
        assert forall|i: int, j: int| 0 <= i < j < n implies {
            let a = #[trigger] order[i];
            let b = #[trigger] order[j];
            keys[a].before(keys[b]) || (keys[a] == keys[b] && a < b)
        } by {
            let a = order[i];
            let b = order[j];
            if j == at {
                assert(a == front[i]);
                if i < at - 1 {
                    let c = front[at - 1];
                    assert(keys[a].before(keys[c]) || (keys[a] == keys[c] && a < c));
                }
            } else if i == at {
                assert(b == front[j - 1]);
                assert(key.before(keys[front[j - 1]]));
            } else {
                let i0 = if i < at {
                    i
                } else {
                    i - 1
                };
                let j0 = if j < at {
                    j
                } else {
                    j - 1
                };
                assert(a == front[i0]);
                assert(b == front[j0]);
            }
        }
    }
}

} // verus!
