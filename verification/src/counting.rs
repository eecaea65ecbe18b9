//! Counting and picking the numbers below a bound that satisfy a condition.
use vstd::prelude::*;

verus! {

/// How many of the numbers below `n` satisfy `p`.
pub open spec fn count_upto(n: int, p: spec_fn(int) -> bool) -> nat
    decreases n,
{
    if n <= 0 {
        0
    } else {
        count_upto(n - 1, p) + (if p(n - 1) {
            1nat
        } else {
            0nat
        })
    }
}

/// The first of the numbers below `n` that satisfies `p`.
pub open spec fn first_upto(n: int, p: spec_fn(int) -> bool) -> Option<int>
    decreases n,
{
    if n <= 0 {
        None
    } else {
        match first_upto(n - 1, p) {
            Some(i) => Some(i),
            None => if p(n - 1) {
                Some(n - 1)
            } else {
                None
            },
        }
    }
}

/// The numbers below `n` that satisfy `p`, ascending.
pub open spec fn all_upto(n: int, p: spec_fn(int) -> bool) -> Seq<usize>
    decreases n,
{
    if n <= 0 {
        Seq::empty()
    } else if p(n - 1) {
        all_upto(n - 1, p).push((n - 1) as usize)
    } else {
        all_upto(n - 1, p)
    }
}

/// Not more numbers are listed than there are.
pub proof fn all_bound(n: int, p: spec_fn(int) -> bool)
    requires
        0 <= n,
    ensures
        all_upto(n, p).len() <= n,
    decreases n,
{
    if n > 0 {
        all_bound(n - 1, p);
    }
}

/// There are not more such numbers than numbers.
pub proof fn count_bound(n: int, p: spec_fn(int) -> bool)
    requires
        0 <= n,
    ensures
        count_upto(n, p) <= n,
    decreases n,
{
    if n > 0 {
        count_bound(n - 1, p);
    }
}

/// The count grows with the bound.
pub proof fn count_grows(a: int, b: int, p: spec_fn(int) -> bool)
    requires
        0 <= a <= b,
    ensures
        count_upto(a, p) <= count_upto(b, p),
    decreases b - a,
{
    if a < b {
        count_grows(a, b - 1, p);
    }
}

/// A number that satisfies the condition is counted.
pub proof fn counted(n: int, p: spec_fn(int) -> bool, i: int)
    requires
        0 <= i < n,
        p(i),
    ensures
        count_upto(n, p) >= 1,
    decreases n,
{
    if i < n - 1 {
        counted(n - 1, p, i);
    }
}

/// Two different numbers that satisfy the condition are counted twice.
pub proof fn counted_twice(n: int, p: spec_fn(int) -> bool, i: int, j: int)
    requires
        0 <= i < j < n,
        p(i),
        p(j),
    ensures
        count_upto(n, p) >= 2,
    decreases n,
{
    if j < n - 1 {
        counted_twice(n - 1, p, i, j);
    } else {
        counted(n - 1, p, i);
    }
}

/// Where nothing satisfies the condition, nothing is counted or found.
pub proof fn none_found(n: int, p: spec_fn(int) -> bool)
    requires
        forall|i: int| 0 <= i < n ==> !#[trigger] p(i),
    ensures
        count_upto(n, p) == 0,
        first_upto(n, p) is None,
        all_upto(n, p).len() == 0,
    decreases n,
{
    if n > 0 {
        none_found(n - 1, p);
    }
}

/// What is found satisfies the condition, and nothing in front of it does.
pub proof fn first_found(n: int, p: spec_fn(int) -> bool)
    ensures
        match first_upto(n, p) {
            Some(i) => 0 <= i < n && p(i) && forall|j: int| 0 <= j < i ==> !#[trigger] p(j),
            None => forall|j: int| 0 <= j < n ==> !#[trigger] p(j),
        },
    decreases n,
{
    if n > 0 {
        first_found(n - 1, p);
    }
}

/// A first number that satisfies the condition is the one found.
pub proof fn first_is(n: int, p: spec_fn(int) -> bool, i: int)
    requires
        0 <= i < n,
        p(i),
        forall|j: int| 0 <= j < i ==> !#[trigger] p(j),
    ensures
        first_upto(n, p) == Some(i),
{
    first_found(n, p);
}

/// Conditions that agree below the bound count and find the same.
pub proof fn same_condition(n: int, p: spec_fn(int) -> bool, q: spec_fn(int) -> bool)
    requires
        forall|i: int| 0 <= i < n ==> #[trigger] p(i) == q(i),
    ensures
        count_upto(n, p) == count_upto(n, q),
        first_upto(n, p) == first_upto(n, q),
        all_upto(n, p) == all_upto(n, q),
    decreases n,
{
    if n > 0 {
        same_condition(n - 1, p, q);
    }
}

/// The numbers listed are those that satisfy the condition, ascending, each once.
pub proof fn all_listed(n: int, p: spec_fn(int) -> bool)
    requires
        0 <= n <= usize::MAX + 1,
    ensures
        all_upto(n, p).len() == count_upto(n, p),
        forall|k: int| 0 <= k < all_upto(n, p).len() ==> (#[trigger] all_upto(n, p)[k]) < n && p(all_upto(n, p)[k] as int),
        forall|k: int, l: int|
            0 <= k < l < all_upto(n, p).len() ==> (#[trigger] all_upto(n, p)[k]) < (#[trigger] all_upto(n, p)[l]),
        forall|i: int| 0 <= i < n && #[trigger] p(i) ==> all_upto(n, p).contains(i as usize),
        all_upto(n, p).len() > 0 ==> first_upto(n, p) == Some(all_upto(n, p)[0] as int),
    decreases n,
{
    if n > 0 {
        all_listed(n - 1, p);
        let before = all_upto(n - 1, p);
        let after = all_upto(n, p);
        first_found(n - 1, p);
        assert forall|i: int| 0 <= i < n && #[trigger] p(i) implies after.contains(i as usize) by {
            if i < n - 1 {
                let k = choose|k: int| 0 <= k < before.len() && before[k] == i as usize;
                assert(after[k] == i as usize);
            } else {
                assert(after[after.len() - 1] == i as usize);
            }
        }
        if before.len() == 0 {
            assert forall|j: int| 0 <= j < n - 1 implies !#[trigger] p(j) by {
                if p(j) {
                    assert(before.contains(j as usize));
                }
            }
            none_found(n - 1, p);
        }
    }
}

/// A condition that holds everywhere below a number, counted.
pub proof fn all_counted(n: int, p: spec_fn(int) -> bool)
    requires
        0 <= n,
        forall|i: int| 0 <= i < n ==> #[trigger] p(i),
    ensures
        count_upto(n, p) == n,
    decreases n,
{
    if n > 0 {
        all_counted(n - 1, p);
    }
}

} // verus!
