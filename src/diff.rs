//! Positional row-level comparison of two snapshots.
use vstd::prelude::*;
use crate::cell::{row_eq, snapshot_view, CellView, Snapshot};

verus! {

/// Row `i` counts as changed: it has a counterpart in both snapshots and the
/// two rows differ. Rows past the end of the shorter snapshot are never compared.
pub open spec fn differs(old: Seq<Seq<CellView>>, new: Seq<Seq<CellView>>, i: int) -> bool {
    &&& 0 <= i < old.len()
    &&& i < new.len()
    &&& old[i] != new[i]
}

/// The set of changed row indices between two snapshots.
pub open spec fn changed_set(old: Seq<Seq<CellView>>, new: Seq<Seq<CellView>>) -> Set<int> {
    Set::new(|i: int| differs(old, new, i))
}

/// The changed indices below `n`, in increasing order.
pub open spec fn changed_upto(old: Seq<Seq<CellView>>, new: Seq<Seq<CellView>>, n: nat) -> Seq<int>
    decreases n,
{
    if n == 0 {
        Seq::empty()
    } else {
        let before = changed_upto(old, new, (n - 1) as nat);
        if differs(old, new, n - 1) {
            before.push(n - 1)
        } else {
            before
        }
    }
}

/// Every changed index of two snapshots, in increasing order.
pub open spec fn changed_list(old: Seq<Seq<CellView>>, new: Seq<Seq<CellView>>) -> Seq<int> {
    changed_upto(old, new, if old.len() < new.len() { old.len() } else { new.len() })
}

/// The indices of `changed` as a set of integers.
pub open spec fn index_set(changed: Seq<usize>) -> Set<int> {
    Set::new(|i: int| exists|k: int| 0 <= k < changed.len() && changed[k] as int == i)
}

/// The changed row indices, in increasing order: exactly the indices below both
/// lengths where the old and the new row differ by deep equality.
pub fn changed_rows(old: &Snapshot, new: &Snapshot) -> (r: Vec<usize>)
    ensures
        r@.map_values(|i: usize| i as int) == changed_list(snapshot_view(old@), snapshot_view(new@)),
        index_set(r@) == changed_set(snapshot_view(old@), snapshot_view(new@)),
        forall|k: int| 0 <= k < r.len() ==> differs(snapshot_view(old@), snapshot_view(new@), r@[k] as int),
        forall|k: int| 0 <= k < r.len() ==> r@[k] < old.len() && r@[k] < new.len(),
        forall|a: int, b: int| 0 <= a < b < r.len() ==> r@[a] < r@[b],
{
    let ghost ov = snapshot_view(old@);
    let ghost nv = snapshot_view(new@);
    let n = if old.len() < new.len() { old.len() } else { new.len() };
    let mut r: Vec<usize> = Vec::new();
    let mut i: usize = 0;
    while i < n
        invariant
            ov == snapshot_view(old@),
            nv == snapshot_view(new@),
            n <= old.len(),
            n <= new.len(),
            n == old.len() || n == new.len(),
            i <= n,
            forall|k: int| 0 <= k < r.len() ==> differs(ov, nv, r@[k] as int) && r@[k] < i,
            forall|a: int, b: int| 0 <= a < b < r.len() ==> r@[a] < r@[b],
            forall|j: int| 0 <= j < i && differs(ov, nv, j) ==> exists|k: int| 0 <= k < r.len() && r@[k] as int == j,
            r@.map_values(|x: usize| x as int) == changed_upto(ov, nv, i as nat),
        decreases n - i,
    {
        assert(snapshot_view(new@)[i as int] == crate::cell::row_view(new@[i as int]@));
        assert(snapshot_view(old@)[i as int] == crate::cell::row_view(old@[i as int]@));
        if !row_eq(&new[i], &old[i]) {
            let ghost before = r@;
            r.push(i);
            assert(r@.map_values(|x: usize| x as int) =~= before.map_values(|x: usize| x as int).push(i as int));
            assert forall|j: int| 0 <= j < i + 1 && differs(ov, nv, j) implies exists|k: int| 0 <= k < r.len() && r@[k] as int == j by {
                if j < i {
                    let k = choose|k: int| 0 <= k < before.len() && before[k] as int == j;
                    assert(r@[k] == before[k]);
                } else {
                    assert(r@[r.len() - 1] as int == j);
                }
            }
        }
        i += 1;
    }
    proof { lemma_changed_list_is_changed_set(ov, nv); }
    assert(index_set(r@) =~= changed_set(ov, nv));
    r
}

proof fn lemma_changed_upto_members(old: Seq<Seq<CellView>>, new: Seq<Seq<CellView>>, n: nat)
    ensures
        forall|i: int| #[trigger] changed_upto(old, new, n).contains(i) <==> (differs(old, new, i) && i < n),
        forall|a: int, b: int| 0 <= a < b < changed_upto(old, new, n).len()
            ==> changed_upto(old, new, n)[a] < changed_upto(old, new, n)[b],
        forall|a: int| 0 <= a < changed_upto(old, new, n).len() ==> changed_upto(old, new, n)[a] < n,
    decreases n,
{
    if n > 0 {
        lemma_changed_upto_members(old, new, (n - 1) as nat);
        let before = changed_upto(old, new, (n - 1) as nat);
        if differs(old, new, n - 1) {
            assert forall|i: int| #[trigger] changed_upto(old, new, n).contains(i) <==> (differs(old, new, i) && i < n) by {
                if i == n - 1 {
                    assert(changed_upto(old, new, n)[before.len() as int] == i);
                }
                if changed_upto(old, new, n).contains(i) && i != n - 1 {
                    let k = choose|k: int| 0 <= k < changed_upto(old, new, n).len() && changed_upto(old, new, n)[k] == i;
                    assert(before[k] == i);
                }
                if before.contains(i) {
                    let k = choose|k: int| 0 <= k < before.len() && before[k] == i;
                    assert(changed_upto(old, new, n)[k] == i);
                }
            }
        }
    }
}

/// The changed list holds exactly the changed indices, each once and in
/// increasing order: its members are the indices below both lengths where the
/// two snapshots differ.
pub proof fn lemma_changed_list_is_changed_set(old: Seq<Seq<CellView>>, new: Seq<Seq<CellView>>)
    ensures
        changed_list(old, new).to_set() == changed_set(old, new),
        forall|a: int, b: int| 0 <= a < b < changed_list(old, new).len()
            ==> changed_list(old, new)[a] < changed_list(old, new)[b],
{
    let n: nat = if old.len() < new.len() { old.len() } else { new.len() };
    lemma_changed_upto_members(old, new, n);
    assert(changed_list(old, new).to_set() =~= changed_set(old, new));
}

/// Comparing a snapshot with itself finds no change.
pub proof fn lemma_unchanged_source_is_quiet(s: Seq<Seq<CellView>>)
    ensures
        changed_list(s, s) == Seq::<int>::empty(),
        changed_set(s, s) == Set::<int>::empty(),
{
    lemma_changed_list_is_changed_set(s, s);
    assert(changed_set(s, s) =~= Set::<int>::empty());
    if changed_list(s, s).len() > 0 {
        assert(changed_list(s, s).to_set().contains(changed_list(s, s)[0]));
    }
}

/// Rows appended past the end of the old snapshot are never reported.
pub proof fn lemma_appended_rows_unreported(old: Seq<Seq<CellView>>, new: Seq<Seq<CellView>>, i: int)
    requires
        old.len() <= i < new.len(),
    ensures
        !changed_list(old, new).contains(i),
{
    lemma_changed_list_is_changed_set(old, new);
    assert(!changed_set(old, new).contains(i));
    assert(!changed_list(old, new).to_set().contains(i));
}

} // verus!
