//! Facts about sequences that several commands search or filter.
use vstd::prelude::*;

verus! {

/// `i` is the first position at which `flags` holds.
pub open spec fn is_first_true(flags: Seq<bool>, i: int) -> bool {
    &&& 0 <= i < flags.len()
    &&& flags[i]
    &&& forall|j: int| 0 <= j < i ==> !flags[j]
}

/// The first position at which `flags` holds, if any.
pub open spec fn first_index(flags: Seq<bool>) -> Option<int> {
    if exists|i: int| #[trigger] is_first_true(flags, i) {
        Some(choose|i: int| #[trigger] is_first_true(flags, i))
    } else {
        None
    }
}

pub proof fn lemma_first_index_at(flags: Seq<bool>, i: int)
    requires
        is_first_true(flags, i),
    ensures
        first_index(flags) == Some(i),
{
    let c = choose|k: int| #[trigger] is_first_true(flags, k);
    assert(is_first_true(flags, c));
    if c < i {
        assert(!flags[c]);
    }
    if c > i {
        assert(!flags[i]);
    }
}

pub proof fn lemma_first_index_none(flags: Seq<bool>)
    requires
        forall|j: int| 0 <= j < flags.len() ==> !flags[j],
    ensures
        first_index(flags) is None,
{
    if exists|i: int| #[trigger] is_first_true(flags, i) {
        let c = choose|k: int| #[trigger] is_first_true(flags, k);
        assert(flags[c]);
    }
}


/// Whether a value differs from `r`.
pub open spec fn differs_from<T>(r: T) -> spec_fn(T) -> bool {
    |x: T| x != r
}

/// Filtering keeps a list whose items all pass.
pub proof fn lemma_filter_all_pass<T>(s: Seq<T>, p: spec_fn(T) -> bool)
    requires
        forall|i: int| 0 <= i < s.len() ==> p(#[trigger] s[i]),
    ensures
        s.filter(p) == s,
    decreases s.len(),
{
    reveal_with_fuel(Seq::<_>::filter, 1);
    if s.len() > 0 {
        lemma_filter_all_pass(s.drop_last(), p);
        assert(s.drop_last().push(s.last()) =~= s);
    } else {
        assert(s.filter(p) =~= s);
    }
}

/// Filtering a list with one more item that fails gives what filtering the list gives.
pub proof fn lemma_filter_push_failing<T>(s: Seq<T>, x: T, p: spec_fn(T) -> bool)
    requires
        !p(x),
    ensures
        s.push(x).filter(p) == s.filter(p),
{
    reveal_with_fuel(Seq::<_>::filter, 1);
    assert(s.push(x).drop_last() =~= s);
}

} // verus!
