//! A stable sort by keys made of a number and a text, as the lists of albums and tags
//! are ordered.
use vstd::prelude::*;

verus! {

/// Whether text `a` comes strictly before text `b`: compared character by character by
/// code point, a proper prefix coming first (the order of `str`'s `Ord`).
pub open spec fn text_lt(a: Seq<char>, b: Seq<char>) -> bool
    decreases a.len(),
{
    if a.len() == 0 {
        b.len() > 0
    } else if b.len() == 0 {
        false
    } else if a[0] != b[0] {
        a[0] < b[0]
    } else {
        text_lt(a.drop_first(), b.drop_first())
    }
}

pub proof fn lemma_text_lt_irreflexive(a: Seq<char>)
    ensures
        !text_lt(a, a),
    decreases a.len(),
{
    if a.len() > 0 {
        lemma_text_lt_irreflexive(a.drop_first());
    }
}

pub proof fn lemma_text_lt_transitive(a: Seq<char>, b: Seq<char>, c: Seq<char>)
    requires
        text_lt(a, b),
        text_lt(b, c),
    ensures
        text_lt(a, c),
    decreases a.len(),
{
    if a.len() > 0 && b.len() > 0 && c.len() > 0 {
        if a[0] == b[0] && b[0] == c[0] {
            lemma_text_lt_transitive(a.drop_first(), b.drop_first(), c.drop_first());
        }
    }
}

pub proof fn lemma_text_lt_total(a: Seq<char>, b: Seq<char>)
    ensures
        a == b || text_lt(a, b) || text_lt(b, a),
    decreases a.len(),
{
    if a.len() > 0 && b.len() > 0 {
        if a[0] == b[0] {
            lemma_text_lt_total(a.drop_first(), b.drop_first());
            if a.drop_first() == b.drop_first() {
                assert(a =~= seq![a[0]] + a.drop_first());
                assert(b =~= seq![b[0]] + b.drop_first());
            }
        } else {
        }
    } else if a.len() == 0 && b.len() == 0 {
        assert(a =~= b);
    }
}

/// A sort key: compared by number first, then by text.
pub struct SortKey {
    pub num: i128,
    pub text: Vec<char>,
}

/// The value of a sort key.
pub open spec fn key_of(k: SortKey) -> (int, Seq<char>) {
    (k.num as int, k.text@)
}

/// The values of a list of sort keys.
pub open spec fn keys_of(ks: Seq<SortKey>) -> Seq<(int, Seq<char>)> {
    ks.map_values(|k: SortKey| key_of(k))
}

/// Whether key `x` comes strictly before key `y`.
pub open spec fn key_lt(x: (int, Seq<char>), y: (int, Seq<char>)) -> bool {
    x.0 < y.0 || (x.0 == y.0 && text_lt(x.1, y.1))
}

pub proof fn lemma_key_lt_irreflexive(x: (int, Seq<char>))
    ensures
        !key_lt(x, x),
{
    lemma_text_lt_irreflexive(x.1);
}

pub proof fn lemma_key_lt_transitive(x: (int, Seq<char>), y: (int, Seq<char>), z: (int, Seq<char>))
    requires
        key_lt(x, y),
        key_lt(y, z),
    ensures
        key_lt(x, z),
{
    if x.0 == y.0 && y.0 == z.0 {
        lemma_text_lt_transitive(x.1, y.1, z.1);
    }
}

pub proof fn lemma_key_lt_total(x: (int, Seq<char>), y: (int, Seq<char>))
    ensures
        x == y || key_lt(x, y) || key_lt(y, x),
{
    lemma_text_lt_total(x.1, y.1);
}

/// `perm` lists the positions of `keys` in the order of a stable sort: each position
/// once, keys never decreasing, and positions with equal keys in their first order.
pub open spec fn is_stable_order(keys: Seq<(int, Seq<char>)>, perm: Seq<usize>) -> bool {
    &&& perm.len() == keys.len()
    &&& forall|i: int| 0 <= i < perm.len() ==> (#[trigger] perm[i]) < keys.len()
    &&& forall|i: int, j: int| 0 <= i < j < perm.len() ==> #[trigger] perm[i] != #[trigger] perm[j]
    &&& forall|i: int, j: int|
        0 <= i < j < perm.len() ==> !key_lt(keys[#[trigger] perm[j] as int], keys[#[trigger] perm[i] as int])
    &&& forall|i: int, j: int|
        0 <= i < j < perm.len() && keys[#[trigger] perm[i] as int] == keys[#[trigger] perm[j] as int]
            ==> perm[i] < perm[j]
}

/// The order invariant of the sort after `k` keys: `out` holds the positions `0..k`
/// sorted stably.
pub open spec fn sorted_prefix(keys: Seq<(int, Seq<char>)>, out: Seq<usize>, k: int) -> bool {
    &&& out.len() == k
    &&& forall|i: int| 0 <= i < out.len() ==> (#[trigger] out[i]) < k
    &&& forall|i: int, j: int| 0 <= i < j < out.len() ==> #[trigger] out[i] != #[trigger] out[j]
    &&& forall|i: int, j: int|
        0 <= i < j < out.len() ==> !key_lt(keys[#[trigger] out[j] as int], keys[#[trigger] out[i] as int])
    &&& forall|i: int, j: int|
        0 <= i < j < out.len() && keys[#[trigger] out[i] as int] == keys[#[trigger] out[j] as int]
            ==> out[i] < out[j]
}

proof fn lemma_insert_keeps_order(keys: Seq<(int, Seq<char>)>, out: Seq<usize>, k: int, p: int)
    requires
        0 <= k < keys.len(),
        k < usize::MAX,
        sorted_prefix(keys, out, k),
        0 <= p <= out.len(),
        forall|q: int| 0 <= q < p ==> !key_lt(keys[k], keys[#[trigger] out[q] as int]),
        p < out.len() ==> key_lt(keys[k], keys[out[p] as int]),
    ensures
        sorted_prefix(keys, out.insert(p, k as usize), k + 1),
{
    let n = out.insert(p, k as usize);
    let kk = keys[k];
    assert forall|q: int| p <= q < out.len() implies key_lt(kk, keys[#[trigger] out[q] as int]) by {
        let a = keys[out[p] as int];
        let b = keys[out[q] as int];
        if q > p {
            assert(!key_lt(b, a));
            lemma_key_lt_total(a, b);
            if a != b {
                lemma_key_lt_transitive(kk, a, b);
            }
        }
    }
    assert forall|i: int| 0 <= i < n.len() implies (#[trigger] n[i]) < k + 1 by {
        if i < p {
            assert(n[i] == out[i]);
        } else if i > p {
            assert(n[i] == out[i - 1]);
        }
    }
    assert forall|i: int, j: int| 0 <= i < j < n.len() implies #[trigger] n[i] != #[trigger] n[j] by {
        if i < p && j < p {
            assert(n[i] == out[i] && n[j] == out[j]);
        } else if i < p && j == p {
            assert(n[i] == out[i]);
        } else if i < p && j > p {
            assert(n[i] == out[i] && n[j] == out[j - 1]);
        } else if i == p {
            assert(n[j] == out[j - 1]);
        } else {
            assert(n[i] == out[i - 1] && n[j] == out[j - 1]);
        }
    }
    assert forall|i: int, j: int| 0 <= i < j < n.len() implies !key_lt(
        keys[#[trigger] n[j] as int],
        keys[#[trigger] n[i] as int],
    ) by {
        if i < p && j < p {
            assert(n[i] == out[i] && n[j] == out[j]);
        } else if i < p && j == p {
            assert(n[i] == out[i]);
        } else if i < p && j > p {
            assert(n[i] == out[i] && n[j] == out[j - 1]);
        } else if i == p {
            assert(n[j] == out[j - 1]);
            let b = keys[out[j - 1] as int];
            assert(key_lt(kk, b));
            if key_lt(b, kk) {
                lemma_key_lt_transitive(kk, b, kk);
                lemma_key_lt_irreflexive(kk);
            }
        } else {
            assert(n[i] == out[i - 1] && n[j] == out[j - 1]);
        }
    }
    assert forall|i: int, j: int|
        0 <= i < j < n.len() && keys[#[trigger] n[i] as int] == keys[#[trigger] n[j] as int] implies n[i] < n[j] by {
        if i < p && j < p {
            assert(n[i] == out[i] && n[j] == out[j]);
        } else if i < p && j == p {
            assert(n[i] == out[i]);
        } else if i < p && j > p {
            assert(n[i] == out[i] && n[j] == out[j - 1]);
        } else if i == p {
            assert(n[j] == out[j - 1]);
            let b = keys[out[j - 1] as int];
            assert(key_lt(kk, b));
            lemma_key_lt_irreflexive(kk);
        } else {
            assert(n[i] == out[i - 1] && n[j] == out[j - 1]);
        }
    }
}

/// Whether text `a` comes strictly before text `b` (see `text_lt`).
pub fn text_less(a: &Vec<char>, b: &Vec<char>) -> (r: bool)
    ensures
        r == text_lt(a@, b@),
{
    let mut i: usize = 0;
    assert(a@.skip(0) =~= a@);
    assert(b@.skip(0) =~= b@);
    while i < a.len() && i < b.len()
        invariant
            i <= a@.len(),
            i <= b@.len(),
            text_lt(a@, b@) == text_lt(a@.skip(i as int), b@.skip(i as int)),
        decreases a.len() - i,
    {
        let ghost sa = a@.skip(i as int);
        let ghost sb = b@.skip(i as int);
        assert(sa[0] == a@[i as int]);
        assert(sb[0] == b@[i as int]);
        if a[i] != b[i] {
            return a[i] < b[i];
        }
        assert(sa.drop_first() =~= a@.skip(i + 1));
        assert(sb.drop_first() =~= b@.skip(i + 1));
        i = i + 1;
    }
    i == a.len() && i < b.len()
}

/// Whether key `x` comes strictly before key `y` (see `key_lt`).
pub fn key_less(x: &SortKey, y: &SortKey) -> (r: bool)
    ensures
        r == key_lt(key_of(*x), key_of(*y)),
{
    if x.num < y.num {
        true
    } else if x.num == y.num {
        text_less(&x.text, &y.text)
    } else {
        false
    }
}

/// The positions of `keys` in the order of a stable sort (insertion sort).
pub fn stable_sort_positions(keys: &Vec<SortKey>) -> (perm: Vec<usize>)
    ensures
        is_stable_order(keys_of(keys@), perm@),
{
    let ghost ks = keys_of(keys@);
    let mut out: Vec<usize> = Vec::new();
    let mut k: usize = 0;
    while k < keys.len()
        invariant
            k <= keys@.len(),
            ks == keys_of(keys@),
            ks.len() == keys@.len(),
            sorted_prefix(ks, out@, k as int),
        decreases keys.len() - k,
    {
        let n = out.len();
        let mut p: usize = 0;
        let mut found = false;
        while !found && p < n
            invariant
                n == out@.len(),
                k < keys@.len(),
                ks == keys_of(keys@),
                ks.len() == keys@.len(),
                sorted_prefix(ks, out@, k as int),
                p <= n,
                forall|q: int| 0 <= q < p ==> !key_lt(ks[k as int], ks[#[trigger] out@[q] as int]),
                found ==> p < n && key_lt(ks[k as int], ks[out@[p as int] as int]),
            decreases n - p + (if found { 0int } else { 1int }),
        {
            let j = out[p];
            if key_less(&keys[k], &keys[j]) {
                found = true;
            } else {
                p = p + 1;
            }
        }
        proof {
            lemma_insert_keeps_order(ks, out@, k as int, p as int);
        }
        out.insert(p, k);
        k = k + 1;
    }
    out
}


/// A list of `n` distinct positions below `n` holds every position below `n`.
proof fn lemma_positions_cover(p: Seq<usize>, n: int, v: int)
    requires
        p.len() == n,
        forall|i: int| 0 <= i < p.len() ==> (#[trigger] p[i]) < n,
        forall|i: int, j: int| 0 <= i < j < p.len() ==> #[trigger] p[i] != #[trigger] p[j],
        0 <= v < n,
    ensures
        exists|i: int| 0 <= i < p.len() && p[i] == v,
{
    let q = p.map_values(|x: usize| x as int);
    assert(q.no_duplicates()) by {
        assert forall|i: int, j: int| 0 <= i < q.len() && 0 <= j < q.len() && i != j implies q[i] != q[j] by {
            if i < j {
                assert(p[i] != p[j]);
            } else {
                assert(p[j] != p[i]);
            }
        }
    }
    q.unique_seq_to_set();
    vstd::set_lib::lemma_int_range(0, n);
    let r = vstd::set_lib::set_int_range(0, n);
    assert(q.to_set().subset_of(r)) by {
        assert forall|x: int| q.to_set().contains(x) implies r.contains(x) by {
            assert(q.contains(x));
            let i = choose|i: int| 0 <= i < q.len() && q[i] == x;
            assert(p[i] < n);
        }
    }
    vstd::seq_lib::seq_to_set_is_finite(q);
    vstd::set_lib::lemma_subset_equality(q.to_set(), r);
    assert(r.contains(v));
    assert(q.to_set().contains(v));
    assert(q.contains(v));
    let i = choose|i: int| 0 <= i < q.len() && q[i] == v;
    assert(p[i] == v);
}

proof fn lemma_stable_orders_agree(keys: Seq<(int, Seq<char>)>, p1: Seq<usize>, p2: Seq<usize>, i: int)
    requires
        is_stable_order(keys, p1),
        is_stable_order(keys, p2),
        0 <= i <= p1.len(),
    ensures
        forall|k: int| 0 <= k < i ==> p1[k] == p2[k],
    decreases i,
{
    if i > 0 {
        let m = i - 1;
        lemma_stable_orders_agree(keys, p1, p2, m);
        let a = p1[m];
        let b = p2[m];
        if a != b {
            let n = keys.len() as int;
            lemma_positions_cover(p2, n, a as int);
            lemma_positions_cover(p1, n, b as int);
            let j = choose|j: int| 0 <= j < p2.len() && p2[j] == a;
            let j2 = choose|j: int| 0 <= j < p1.len() && p1[j] == b;
            if j < m {
                assert(p1[j] == p2[j]);
                assert(p1[j] != p1[m]);
            }
            if j2 < m {
                assert(p1[j2] == p2[j2]);
                assert(p2[j2] != p2[m]);
            }
            assert(j > m && j2 > m);
            let ka = keys[a as int];
            let kb = keys[b as int];
            assert(!key_lt(keys[p1[j2] as int], keys[p1[m] as int]));
            assert(!key_lt(keys[p2[j] as int], keys[p2[m] as int]));
            lemma_key_lt_total(ka, kb);
            assert(keys[p1[m] as int] == keys[p1[j2] as int]);
            assert(p1[m] < p1[j2]);
            assert(keys[p2[m] as int] == keys[p2[j] as int]);
            assert(p2[m] < p2[j]);
        }
    }
}

/// A stable sort has one outcome: two orders of the same keys that are both stable
/// sorts are the same order.
pub proof fn law_stable_order_unique(keys: Seq<(int, Seq<char>)>, p1: Seq<usize>, p2: Seq<usize>)
    requires
        is_stable_order(keys, p1),
        is_stable_order(keys, p2),
    ensures
        p1 == p2,
{
    lemma_stable_orders_agree(keys, p1, p2, p1.len() as int);
    assert(p1 =~= p2);
}

} // verus!
