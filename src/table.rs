//! Tables of amounts held as sequences of (key, amount) entries with
//! distinct keys; a key without an entry holds zero.
use vstd::prelude::*;

verus! {

/// The amount that `s` holds under `k`: that of the last entry with that key,
/// zero where there is none.
pub open spec fn amount_of<K: View>(s: Seq<(K, u128)>, k: K::V) -> nat
    decreases s.len(),
{
    if s.len() == 0 {
        0
    } else if s.last().0@ == k {
        s.last().1 as nat
    } else {
        amount_of(s.drop_last(), k)
    }
}

/// No two entries share a key.
pub open spec fn keys_unique<K: View>(s: Seq<(K, u128)>) -> bool {
    forall|i: int, j: int| 0 <= i < j < s.len() ==> s[i].0@ != s[j].0@
}

/// The sum of all amounts in `s`.
pub open spec fn sum_amounts<K>(s: Seq<(K, u128)>) -> nat
    decreases s.len(),
{
    if s.len() == 0 {
        0
    } else {
        sum_amounts(s.drop_last()) + s.last().1 as nat
    }
}

pub proof fn lemma_amount_at<K: View>(s: Seq<(K, u128)>, i: int)
    requires
        keys_unique(s),
        0 <= i < s.len(),
    ensures
        amount_of(s, s[i].0@) == s[i].1 as nat,
    decreases s.len(),
{
    if i < s.len() - 1 {
        assert(s.last() == s[s.len() - 1]);
        lemma_amount_at(s.drop_last(), i);
    }
}

pub proof fn lemma_amount_absent<K: View>(s: Seq<(K, u128)>, k: K::V)
    requires
        forall|i: int| 0 <= i < s.len() ==> s[i].0@ != k,
    ensures
        amount_of(s, k) == 0,
    decreases s.len(),
{
    if s.len() > 0 {
        assert(s.last() == s[s.len() - 1]);
        lemma_amount_absent(s.drop_last(), k);
    }
}

pub proof fn lemma_amount_update<K: View>(s: Seq<(K, u128)>, i: int, e: (K, u128), k: K::V)
    requires
        keys_unique(s),
        0 <= i < s.len(),
        e.0@ == s[i].0@,
    ensures
        keys_unique(s.update(i, e)),
        amount_of(s.update(i, e), k) == if k == e.0@ {
            e.1 as nat
        } else {
            amount_of(s, k)
        },
    decreases s.len(),
{
    let t = s.update(i, e);
    assert(t.last() == t[t.len() - 1]);
    assert(s.last() == s[s.len() - 1]);
    if i == s.len() - 1 {
        assert(t.drop_last() =~= s.drop_last());
    } else {
        assert(t.drop_last() =~= s.drop_last().update(i, e));
        lemma_amount_update(s.drop_last(), i, e, k);
    }
}

pub proof fn lemma_amount_push<K: View>(s: Seq<(K, u128)>, e: (K, u128), k: K::V)
    requires
        keys_unique(s),
        forall|i: int| 0 <= i < s.len() ==> s[i].0@ != e.0@,
    ensures
        keys_unique(s.push(e)),
        amount_of(s.push(e), k) == if k == e.0@ {
            e.1 as nat
        } else {
            amount_of(s, k)
        },
{
    assert(s.push(e).drop_last() =~= s);
}

pub proof fn lemma_sum_update<K>(s: Seq<(K, u128)>, i: int, e: (K, u128))
    requires
        0 <= i < s.len(),
    ensures
        sum_amounts(s.update(i, e)) + s[i].1 as nat == sum_amounts(s) + e.1 as nat,
    decreases s.len(),
{
    let t = s.update(i, e);
    if i == s.len() - 1 {
        assert(t.drop_last() =~= s.drop_last());
    } else {
        assert(t.drop_last() =~= s.drop_last().update(i, e));
        lemma_sum_update(s.drop_last(), i, e);
    }
}

pub proof fn lemma_sum_push<K>(s: Seq<(K, u128)>, e: (K, u128))
    ensures
        sum_amounts(s.push(e)) == sum_amounts(s) + e.1 as nat,
{
    assert(s.push(e).drop_last() =~= s);
}

pub proof fn lemma_entry_le_sum<K>(s: Seq<(K, u128)>, i: int)
    requires
        0 <= i < s.len(),
    ensures
        s[i].1 as nat <= sum_amounts(s),
    decreases s.len(),
{
    if i < s.len() - 1 {
        lemma_entry_le_sum(s.drop_last(), i);
    }
}

pub proof fn lemma_pair_le_sum<K>(s: Seq<(K, u128)>, i: int, j: int)
    requires
        0 <= i < s.len(),
        0 <= j < s.len(),
        i != j,
    ensures
        s[i].1 as nat + s[j].1 as nat <= sum_amounts(s),
    decreases s.len(),
{
    let n = s.len() - 1;
    if i == n {
        lemma_entry_le_sum(s.drop_last(), j);
    } else if j == n {
        lemma_entry_le_sum(s.drop_last(), i);
    } else {
        lemma_pair_le_sum(s.drop_last(), i, j);
    }
}

/// Where keys are unique, an amount never exceeds the sum.
pub proof fn lemma_amount_le_sum<K: View>(s: Seq<(K, u128)>, k: K::V)
    requires
        keys_unique(s),
    ensures
        amount_of(s, k) <= sum_amounts(s),
    decreases s.len(),
{
    if s.len() > 0 {
        lemma_amount_le_sum(s.drop_last(), k);
        if s.last().0@ == k {
            lemma_entry_le_sum(s, s.len() - 1);
        }
    }
}

/// Where keys are unique, two amounts under distinct keys never exceed the sum.
pub proof fn lemma_two_amounts_le_sum<K: View>(s: Seq<(K, u128)>, a: K::V, b: K::V)
    requires
        keys_unique(s),
        a != b,
    ensures
        amount_of(s, a) + amount_of(s, b) <= sum_amounts(s),
    decreases s.len(),
{
    if s.len() > 0 {
        let d = s.drop_last();
        lemma_two_amounts_le_sum(d, a, b);
        if s.last().0@ == a {
            lemma_amount_le_sum(d, b);
        } else if s.last().0@ == b {
            lemma_amount_le_sum(d, a);
        }
    }
}

} // verus!
