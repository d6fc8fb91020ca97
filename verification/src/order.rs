//! Stable ordering by an integer key.
//!
//! The order of a sequence of keys is the list of their positions, arranged
//! so that the keys ascend and equal keys keep the order they came in.

use vstd::prelude::*;

verus! {

/// `order` with the position `k` put in: behind the last position whose key
/// is at most the key of `k`.
pub open spec fn insert_by_key(keys: Seq<u64>, order: Seq<usize>, k: usize) -> Seq<usize>
    decreases order.len(),
{
    if order.len() == 0 {
        seq![k]
    } else if keys[order.last() as int] <= keys[k as int] {
        order.push(k)
    } else {
        insert_by_key(keys, order.drop_last(), k).push(order.last())
    }
}

/// The order of the first `n` keys.
pub open spec fn stable_order_upto(keys: Seq<u64>, n: nat) -> Seq<usize>
    decreases n,
{
    if n == 0 {
        Seq::empty()
    } else {
        insert_by_key(keys, stable_order_upto(keys, (n - 1) as nat), (n - 1) as usize)
    }
}

/// The positions of `keys`, ordered by key, equal keys by position.
pub open spec fn stable_order(keys: Seq<u64>) -> Seq<usize> {
    stable_order_upto(keys, keys.len())
}

/// Whether `order` lists positions below `n` so that their keys ascend and
/// equal keys stand in order of position. No position then occurs twice.
pub open spec fn is_stable_order(keys: Seq<u64>, order: Seq<usize>, n: nat) -> bool {
    &&& order.len() == n
    &&& forall|i: int| 0 <= i < order.len() ==> (#[trigger] order[i]) < n
    &&& forall|i: int, j: int|
        0 <= i < j < order.len() ==> keys[(#[trigger] order[i]) as int] < keys[(
        #[trigger] order[j]) as int] || (keys[order[i] as int] == keys[order[j] as int]
            && order[i] < order[j])
}

/// Putting `k` in at `at` is what [`insert_by_key`] does, where every
/// position from `at` on has a larger key than `k` and the one before `at`
/// has not.
proof fn lemma_insert_at(keys: Seq<u64>, order: Seq<usize>, k: usize, at: int)
    requires
        0 <= at <= order.len(),
        forall|j: int| at <= j < order.len() ==> keys[(#[trigger] order[j]) as int] > keys[k as int],
        at > 0 ==> keys[order[at - 1] as int] <= keys[k as int],
    ensures
        insert_by_key(keys, order, k) == order.insert(at, k),
    decreases order.len(),
{
    if order.len() == 0 {
        assert(order.insert(at, k) =~= seq![k]);
    } else if at == order.len() {
        assert(order.insert(at, k) =~= order.push(k));
    } else {
        let rest = order.drop_last();
        assert(keys[order[order.len() - 1] as int] > keys[k as int]);
        assert forall|j: int| at <= j < rest.len() implies keys[(#[trigger] rest[j]) as int]
            > keys[k as int] by {
            assert(rest[j] == order[j]);
        }
        lemma_insert_at(keys, rest, k, at);
        assert(rest.insert(at, k).push(order.last()) =~= order.insert(at, k));
    }
}

/// Computes the stable order of `keys`.
pub fn stable_order_of(keys: &Vec<u64>) -> (order: Vec<usize>)
    ensures
        order@ == stable_order(keys@),
        is_stable_order(keys@, order@, keys@.len()),
{
    let n: usize = keys.len();
    let mut order: Vec<usize> = Vec::new();
    let mut k: usize = 0;
    while k < n
        invariant
            k <= n,
            n == keys@.len(),
            order@ == stable_order_upto(keys@, k as nat),
            is_stable_order(keys@, order@, k as nat),
        decreases n - k,
    {
        let key: u64 = keys[k];
        let mut at: usize = order.len();
        while at > 0 && keys[order[at - 1]] > key
            invariant
                at <= order@.len(),
                order@.len() == k,
                k < n,
                n == keys@.len(),
                key == keys@[k as int],
                is_stable_order(keys@, order@, k as nat),
                forall|j: int|
                    at <= j < order@.len() ==> keys@[(#[trigger] order@[j]) as int] > key,
            decreases at,
        {
            at = at - 1;
        }
        proof {
            lemma_insert_at(keys@, order@, k, at as int);
            lemma_insert_keeps_order(keys@, order@, k);
        }
        order.insert(at, k);
        k = k + 1;
    }
    order
}

/// The place at which [`insert_by_key`] puts `k` into `order`.
pub open spec fn insert_place(keys: Seq<u64>, order: Seq<usize>, k: usize) -> int
    decreases order.len(),
{
    if order.len() == 0 {
        0
    } else if keys[order.last() as int] <= keys[k as int] {
        order.len() as int
    } else {
        insert_place(keys, order.drop_last(), k)
    }
}

proof fn lemma_insert_place(keys: Seq<u64>, order: Seq<usize>, k: usize)
    ensures
        0 <= insert_place(keys, order, k) <= order.len(),
        forall|j: int|
            insert_place(keys, order, k) <= j < order.len() ==> keys[(#[trigger] order[j]) as int]
                > keys[k as int],
        insert_place(keys, order, k) > 0 ==> keys[order[insert_place(keys, order, k) - 1] as int]
            <= keys[k as int],
    decreases order.len(),
{
    if order.len() > 0 && keys[order.last() as int] > keys[k as int] {
        let rest = order.drop_last();
        lemma_insert_place(keys, rest, k);
        let at = insert_place(keys, rest, k);
        assert forall|j: int| at <= j < order.len() implies keys[(#[trigger] order[j]) as int]
            > keys[k as int] by {
            if j < rest.len() {
                assert(order[j] == rest[j]);
            }
        }
        if at > 0 {
            assert(order[at - 1] == rest[at - 1]);
        }
    }
}

/// Putting the next position into a stable order of those before it gives a
/// stable order again.
proof fn lemma_insert_keeps_order(keys: Seq<u64>, order: Seq<usize>, k: usize)
    requires
        is_stable_order(keys, order, k as nat),
    ensures
        is_stable_order(keys, insert_by_key(keys, order, k), (k + 1) as nat),
{
    lemma_insert_place(keys, order, k);
    let at = insert_place(keys, order, k);
    lemma_insert_at(keys, order, k, at);
    let after = insert_by_key(keys, order, k);
    assert(after == order.insert(at, k));
    assert forall|i: int, j: int| 0 <= i < j < after.len() implies keys[(
    #[trigger] after[i]) as int] < keys[(#[trigger] after[j]) as int] || (keys[after[i] as int]
        == keys[after[j] as int] && after[i] < after[j]) by {
        if j < at {
            assert(after[i] == order[i] && after[j] == order[j]);
        } else if j == at {
            assert(after[j] == k);
            assert(after[i] == order[i]);
            if i < at - 1 {
                assert(keys[order[i] as int] <= keys[order[at - 1] as int]);
            }
        } else if i < at {
            assert(after[i] == order[i] && after[j] == order[j - 1]);
        } else if i == at {
            assert(after[i] == k && after[j] == order[j - 1]);
        } else {
            assert(after[i] == order[i - 1] && after[j] == order[j - 1]);
        }
    }
    assert forall|i: int| 0 <= i < after.len() implies (#[trigger] after[i]) < k + 1 by {
        if i < at {
            assert(after[i] == order[i]);
        } else if i > at {
            assert(after[i] == order[i - 1]);
        }
    }
}

/// The order of the first `n` keys is a stable order of them.
pub proof fn lemma_stable_order_upto(keys: Seq<u64>, n: nat)
    requires
        n <= usize::MAX,
    ensures
        is_stable_order(keys, stable_order_upto(keys, n), n),
    decreases n,
{
    if n > 0 {
        lemma_stable_order_upto(keys, (n - 1) as nat);
        lemma_insert_keeps_order(keys, stable_order_upto(keys, (n - 1) as nat), (n - 1) as usize);
    }
}

/// The order of the keys lists each position once, by ascending key, equal
/// keys by position.
pub proof fn lemma_stable_order(keys: Seq<u64>)
    requires
        keys.len() <= usize::MAX,
    ensures
        is_stable_order(keys, stable_order(keys), keys.len()),
{
    lemma_stable_order_upto(keys, keys.len());
}

} // verus!
