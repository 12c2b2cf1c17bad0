//! Sorting that keeps equals in their order.

use vstd::prelude::*;

verus! {

/// `s`, which is sorted, with `x` after every element of no higher rank.
pub open spec fn inserted<A>(s: Seq<A>, x: A, rank: spec_fn(A) -> int) -> Seq<A>
    decreases s.len(),
{
    if s.len() == 0 || rank(s.last()) <= rank(x) {
        s.push(x)
    } else {
        inserted(s.drop_last(), x, rank).push(s.last())
    }
}

/// `s` by ascending rank, elements of equal rank in their order.
pub open spec fn stable_sorted<A>(s: Seq<A>, rank: spec_fn(A) -> int) -> Seq<A>
    decreases s.len(),
{
    if s.len() == 0 {
        s
    } else {
        inserted(stable_sorted(s.drop_last(), rank), s.last(), rank)
    }
}

/// Whether ranks never fall.
pub open spec fn by_rank<A>(s: Seq<A>, rank: spec_fn(A) -> int) -> bool {
    forall|i: int, j: int| 0 <= i <= j < s.len() ==> rank(#[trigger] s[i]) <= rank(#[trigger] s[j])
}

/// Whether nothing of a higher rank than `x` stands in `s`.
spec fn none_higher<A>(s: Seq<A>, x: A, rank: spec_fn(A) -> int) -> bool {
    forall|i: int| 0 <= i < s.len() ==> rank(#[trigger] s[i]) <= rank(x)
}

proof fn inserted_keeps<A>(s: Seq<A>, x: A, rank: spec_fn(A) -> int)
    requires
        by_rank(s, rank),
    ensures
        by_rank(inserted(s, x, rank), rank),
        inserted(s, x, rank).to_multiset() == s.to_multiset().insert(x),
        inserted(s, x, rank).len() == s.len() + 1,
        forall|y: A|
            none_higher(s, y, rank) && rank(x) <= rank(y) ==> none_higher(
                inserted(s, x, rank),
                y,
                rank,
            ),
    decreases s.len(),
{
    broadcast use vstd::seq_lib::group_to_multiset_ensures;

    let r = inserted(s, x, rank);
    if s.len() == 0 || rank(s.last()) <= rank(x) {
        assert forall|i: int, j: int| 0 <= i <= j < r.len() implies rank(#[trigger] r[i]) <= rank(
            #[trigger] r[j],
        ) by {
            if j == s.len() && i < j {
                assert(rank(s[i]) <= rank(s[s.len() - 1]));
            }
        }
    } else {
        let front = s.drop_last();
        assert(by_rank(front, rank));
        inserted_keeps(front, x, rank);
        assert(none_higher(front, s.last(), rank)) by {
            assert forall|i: int| 0 <= i < front.len() implies rank(#[trigger] front[i]) <= rank(
                s.last(),
            ) by {
                assert(rank(s[i]) <= rank(s[s.len() - 1]));
            }
        }
        let head = inserted(front, x, rank);
        assert(none_higher(head, s.last(), rank));
        assert(s =~= front.push(s.last()));
        assert(r.to_multiset() =~= s.to_multiset().insert(x));
        assert forall|i: int, j: int| 0 <= i <= j < r.len() implies rank(#[trigger] r[i]) <= rank(
            #[trigger] r[j],
        ) by {
            if j < head.len() {
                assert(rank(head[i]) <= rank(head[j]));
            } else if i < head.len() {
                assert(rank(head[i]) <= rank(s.last()));
            }
        }
        assert forall|y: A| none_higher(s, y, rank) && rank(x) <= rank(y) implies none_higher(
            r,
            y,
            rank,
        ) by {
            assert(none_higher(front, y, rank)) by {
                assert forall|i: int| 0 <= i < front.len() implies rank(#[trigger] front[i])
                    <= rank(y) by {
                    assert(rank(s[i]) <= rank(y));
                }
            }
            assert(none_higher(head, y, rank));
            assert(rank(s[s.len() - 1]) <= rank(y));
            assert forall|i: int| 0 <= i < r.len() implies rank(#[trigger] r[i]) <= rank(y) by {
                if i < head.len() {
                    assert(rank(head[i]) <= rank(y));
                }
            }
        }
    }
}

/// Sorting keeps the elements and puts their ranks in order.
pub proof fn sorting_orders<A>(s: Seq<A>, rank: spec_fn(A) -> int)
    ensures
        by_rank(stable_sorted(s, rank), rank),
        stable_sorted(s, rank).to_multiset() == s.to_multiset(),
        stable_sorted(s, rank).len() == s.len(),
    decreases s.len(),
{
    broadcast use vstd::seq_lib::group_to_multiset_ensures;

    if s.len() > 0 {
        sorting_orders(s.drop_last(), rank);
        inserted_keeps(stable_sorted(s.drop_last(), rank), s.last(), rank);
        assert(s =~= s.drop_last().push(s.last()));
    }
}

/// Sorting asks only for the ranks, so it goes hand in hand with a map that keeps them.
pub proof fn sorting_commutes<A, B>(
    s: Seq<A>,
    f: spec_fn(A) -> B,
    rank_a: spec_fn(A) -> int,
    rank_b: spec_fn(B) -> int,
)
    requires
        forall|i: int| 0 <= i < s.len() ==> rank_a(#[trigger] s[i]) == rank_b(f(s[i])),
    ensures
        stable_sorted(s, rank_a).map_values(f) == stable_sorted(s.map_values(f), rank_b),
    decreases s.len(),
{
    if s.len() == 0 {
        assert(s.map_values(f) =~= Seq::<B>::empty());
        assert(stable_sorted(s, rank_a).map_values(f) =~= Seq::<B>::empty());
    } else {
        let front = s.drop_last();
        sorting_commutes(front, f, rank_a, rank_b);
        assert(s.map_values(f).drop_last() =~= front.map_values(f));
        let t = stable_sorted(front, rank_a);
        assert forall|i: int| 0 <= i < t.len() implies rank_a(#[trigger] t[i]) == rank_b(f(t[i])) by {
            sorted_from(front, rank_a, i);
            let j = choose|j: int| 0 <= j < front.len() && front[j] == t[i];
            assert(s[j] == t[i]);
        }
        assert(rank_a(s[s.len() - 1]) == rank_b(f(s[s.len() - 1])));
        inserting_commutes(t, s.last(), f, rank_a, rank_b);
    }
}

/// What stands in the sorted sequence stood in the sequence.
pub proof fn sorted_from<A>(s: Seq<A>, rank: spec_fn(A) -> int, i: int)
    requires
        0 <= i < stable_sorted(s, rank).len(),
    ensures
        s.contains(stable_sorted(s, rank)[i]),
{
    broadcast use vstd::seq_lib::group_to_multiset_ensures;

    let t = stable_sorted(s, rank);
    sorting_orders(s, rank);
    assert(t.contains(t[i]));
    assert(t.to_multiset().count(t[i]) > 0);
}

proof fn inserting_commutes<A, B>(
    s: Seq<A>,
    x: A,
    f: spec_fn(A) -> B,
    rank_a: spec_fn(A) -> int,
    rank_b: spec_fn(B) -> int,
)
    requires
        forall|i: int| 0 <= i < s.len() ==> rank_a(#[trigger] s[i]) == rank_b(f(s[i])),
        rank_a(x) == rank_b(f(x)),
    ensures
        inserted(s, x, rank_a).map_values(f) == inserted(s.map_values(f), f(x), rank_b),
    decreases s.len(),
{
    let m = s.map_values(f);
    if s.len() == 0 || rank_a(s.last()) <= rank_a(x) {
        if s.len() > 0 {
            assert(rank_a(s[s.len() - 1]) == rank_b(f(s[s.len() - 1])));
            assert(m.last() == f(s.last()));
        }
        assert(s.push(x).map_values(f) =~= m.push(f(x)));
    } else {
        assert(rank_a(s[s.len() - 1]) == rank_b(f(s[s.len() - 1])));
        assert(m.last() == f(s.last()));
        let front = s.drop_last();
        assert forall|i: int| 0 <= i < front.len() implies rank_a(#[trigger] front[i]) == rank_b(
            f(front[i]),
        ) by {
            assert(front[i] == s[i]);
        }
        inserting_commutes(front, x, f, rank_a, rank_b);
        assert(m.drop_last() =~= front.map_values(f));
        assert(inserted(front, x, rank_a).push(s.last()).map_values(f) =~= inserted(
            front,
            x,
            rank_a,
        ).map_values(f).push(f(s.last())));
    }
}

proof fn inserted_after<A>(s: Seq<A>, x: A, rank: spec_fn(A) -> int, n: int)
    requires
        0 <= n <= s.len(),
        n > 0 ==> rank(s[n - 1]) <= rank(x),
        forall|i: int| n <= i < s.len() ==> rank(#[trigger] s[i]) > rank(x),
    ensures
        inserted(s, x, rank) == s.insert(n, x),
    decreases s.len(),
{
    if n == s.len() {
        assert(s.push(x) =~= s.insert(n, x));
    } else {
        let front = s.drop_last();
        assert(rank(s[s.len() - 1]) > rank(x));
        assert forall|i: int| n <= i < front.len() implies rank(#[trigger] front[i]) > rank(x) by {
            assert(front[i] == s[i]);
        }
        inserted_after(front, x, rank, n);
        assert(front.insert(n, x).push(s.last()) =~= s.insert(n, x));
    }
}

/// Sorts `items`, the rank of each standing at its place in `ranks`.
pub(crate) fn stable_sort<T>(
    items: Vec<T>,
    ranks: Vec<usize>,
    Ghost(rank): Ghost<spec_fn(T) -> int>,
) -> (r: Vec<T>)
    requires
        items@.len() == ranks@.len(),
        forall|i: int| 0 <= i < items@.len() ==> rank(#[trigger] items@[i]) == ranks@[i],
    ensures
        r@ == stable_sorted(items@, rank),
{
    let ghost all = items@;
    let mut rest = items;
    let mut r: Vec<T> = Vec::new();
    let mut keys: Vec<usize> = Vec::new();
    let mut k: usize = 0;
    let total: usize = rest.len();
    assert(all.take(0) =~= Seq::<T>::empty());
    assert(all.skip(0) =~= all);
    while k < total
        invariant
            total == all.len(),
            k <= total,
            all.len() == ranks@.len(),
            forall|i: int| 0 <= i < all.len() ==> rank(#[trigger] all[i]) == ranks@[i],
            rest@ == all.skip(k as int),
            r@ == stable_sorted(all.take(k as int), rank),
            keys@.len() == r@.len(),
            forall|i: int| 0 <= i < r@.len() ==> rank(#[trigger] r@[i]) == keys@[i],
        decreases total - k,
    {
        let key: usize = ranks[k];
        let item = rest.remove(0);
        let ghost x = all[k as int];
        assert(item == x);
        assert(rank(x) == key);
        let ghost had = r@;
        let ghost had_keys = keys@;
        let mut n: usize = r.len();
        while n > 0 && keys[n - 1] > key
            invariant
                n <= r@.len(),
                r@ == had,
                keys@ == had_keys,
                rank(x) == key,
                keys@.len() == r@.len(),
                forall|i: int| 0 <= i < r@.len() ==> rank(#[trigger] r@[i]) == keys@[i],
                forall|i: int| n <= i < r@.len() ==> rank(#[trigger] r@[i]) > rank(x),
            decreases n,
        {
            assert(rank(r@[n - 1]) == keys@[n - 1]);
            n -= 1;
        }
        proof {
            if n > 0 {
                assert(rank(r@[n - 1]) == keys@[n - 1]);
            }
            inserted_after(had, x, rank, n as int);
            assert(all.take(k + 1).drop_last() =~= all.take(k as int));
        }
        r.insert(n, item);
        keys.insert(n, key);
        assert forall|i: int| 0 <= i < r@.len() implies rank(#[trigger] r@[i]) == keys@[i] by {
            if i < n {
                assert(rank(had[i]) == had_keys[i]);
            } else if i > n {
                assert(rank(had[i - 1]) == had_keys[i - 1]);
            }
        }
        k += 1;
        assert(rest@ =~= all.skip(k as int));
    }
    assert(all.take(k as int) =~= all);
    r
}

}
