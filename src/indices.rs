use vstd::prelude::*;

verus! {

/// The indices `j < n`, ascending, for which `pred(j)` holds.
pub open spec fn indices_where(n: nat, pred: spec_fn(nat) -> bool) -> Seq<usize>
    decreases n,
{
    if n == 0 {
        Seq::empty()
    } else {
        let s = indices_where((n - 1) as nat, pred);
        if pred((n - 1) as nat) {
            s.push((n - 1) as usize)
        } else {
            s
        }
    }
}

/// Every index that `indices_where` yields is below `n` and satisfies `pred`.
pub proof fn lemma_indices_where_sound(n: nat, pred: spec_fn(nat) -> bool)
    requires
        n <= usize::MAX,
    ensures
        forall|k: int|
            0 <= k < indices_where(n, pred).len() ==> {
                let j = #[trigger] indices_where(n, pred)[k];
                j < n && pred(j as nat)
            },
    decreases n,
{
    if n > 0 {
        let m = (n - 1) as nat;
        lemma_indices_where_sound(m, pred);
        let s = indices_where(m, pred);
        if pred(m) {
            let t = s.push(m as usize);
            assert forall|k: int| 0 <= k < t.len() implies {
                let j = #[trigger] t[k];
                j < n && pred(j as nat)
            } by {
                if k < s.len() {
                    assert(t[k] == s[k]);
                }
            }
        }
    }
}

/// Where some `j < n` satisfies `pred`, `indices_where` is not empty.
pub proof fn lemma_indices_where_nonempty(n: nat, pred: spec_fn(nat) -> bool, j: nat)
    requires
        j < n,
        pred(j),
    ensures
        indices_where(n, pred).len() > 0,
    decreases n,
{
    if j < n - 1 {
        lemma_indices_where_nonempty((n - 1) as nat, pred, j);
    }
}

} // verus!
