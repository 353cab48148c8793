use vstd::prelude::*;

use crate::text::same_text;

verus! {

/// The element names after replacing every `target` by `new_el`.
pub fn substituted_elements(elements: &Vec<String>, target: &str, new_el: &str) -> (r: Vec<String>)
    ensures
        r@.len() == elements@.len(),
        forall|i: int|
            0 <= i < r@.len() ==> #[trigger] r@[i]@ == (if elements@[i]@ == target@ {
                new_el@
            } else {
                elements@[i]@
            }),
{
    let mut r: Vec<String> = Vec::new();
    let mut i: usize = 0;
    while i < elements.len()
        invariant
            i <= elements.len(),
            r@.len() == i,
            forall|k: int|
                0 <= k < i ==> #[trigger] r@[k]@ == (if elements@[k]@ == target@ {
                    new_el@
                } else {
                    elements@[k]@
                }),
        decreases elements.len() - i,
    {
        if same_text(elements[i].as_str(), target) {
            r.push(String::from_str(new_el));
        } else {
            r.push(elements[i].clone());
        }
        i = i + 1;
    }
    r
}

/// Index `i` is among `indices`.
pub open spec fn selected(indices: Seq<usize>, i: int) -> bool {
    exists|k: int| 0 <= k < indices.len() && indices[k] == i
}

/// The element names after giving every selected atom the element `new_el`
/// (indices past the end are ignored).
pub fn modified_elements(elements: &Vec<String>, indices: &[usize], new_el: &str) -> (r: Vec<String>)
    ensures
        r@.len() == elements@.len(),
        forall|i: int|
            0 <= i < r@.len() ==> #[trigger] r@[i]@ == (if selected(indices@, i) {
                new_el@
            } else {
                elements@[i]@
            }),
{
    let mut r: Vec<String> = elements.clone();
    assert(forall|i: int| 0 <= i < r@.len() ==> #[trigger] r@[i]@ == elements@[i]@);
    let mut k: usize = 0;
    while k < indices.len()
        invariant
            k <= indices@.len(),
            r@.len() == elements@.len(),
            forall|i: int|
                0 <= i < r@.len() ==> #[trigger] r@[i]@ == (if exists|j: int| 0 <= j < k && indices@[j] == i {
                    new_el@
                } else {
                    elements@[i]@
                }),
        decreases indices@.len() - k,
    {
        let idx = indices[k];
        if idx < r.len() {
            r.set(idx, String::from_str(new_el));
        }
        assert forall|i: int| 0 <= i < r@.len() implies #[trigger] r@[i]@ == (if exists|j: int|
            0 <= j < k + 1 && indices@[j] == i {
            new_el@
        } else {
            elements@[i]@
        }) by {
            if i == idx {
                assert(0 <= k < k + 1 && indices@[k as int] == i);
            } else {
                if exists|j: int| 0 <= j < k + 1 && indices@[j] == i {
                    let j = choose|j: int| 0 <= j < k + 1 && indices@[j] == i;
                    assert(j < k);
                }
            }
        }
        k = k + 1;
    }
    r
}

/// Indices `0..n` that are not selected, in increasing order.
pub open spec fn kept(n: int, indices: Seq<usize>) -> Seq<usize>
    decreases n,
{
    if n <= 0 {
        seq![]
    } else if selected(indices, n - 1) {
        kept(n - 1, indices)
    } else {
        kept(n - 1, indices).push((n - 1) as usize)
    }
}

fn is_selected(indices: &[usize], i: usize) -> (r: bool)
    ensures
        r == selected(indices@, i as int),
{
    let mut k: usize = 0;
    while k < indices.len()
        invariant
            k <= indices@.len(),
            forall|j: int| 0 <= j < k ==> indices@[j] != i,
        decreases indices@.len() - k,
    {
        if indices[k] == i {
            return true;
        }
        k = k + 1;
    }
    false
}

/// Indices of the atoms that remain after removing the selected ones.
pub fn kept_indices(n: usize, indices: &[usize]) -> (r: Vec<usize>)
    ensures
        r@ == kept(n as int, indices@),
{
    let mut r: Vec<usize> = Vec::new();
    let mut i: usize = 0;
    while i < n
        invariant
            i <= n,
            r@ == kept(i as int, indices@),
        decreases n - i,
    {
        if !is_selected(indices, i) {
            r.push(i);
        }
        i = i + 1;
    }
    r
}

/// Removal keeps exactly the unselected atoms, in their original order.
pub proof fn lemma_kept_exact(n: int, indices: Seq<usize>)
    requires
        0 <= n <= usize::MAX,
    ensures
        forall|k: int| 0 <= k < kept(n, indices).len() ==> (#[trigger] kept(n, indices)[k]) < n && !selected(indices, kept(n, indices)[k] as int),
        forall|i: int| 0 <= i < n && !selected(indices, i) ==> kept(n, indices).contains(i as usize),
        forall|a: int, b: int| 0 <= a < b < kept(n, indices).len() ==> kept(n, indices)[a] < kept(n, indices)[b],
    decreases n,
{
    if n > 0 {
        lemma_kept_exact(n - 1, indices);
        let prev = kept(n - 1, indices);
        let cur = kept(n, indices);
        assert forall|k: int| 0 <= k < cur.len() implies (#[trigger] cur[k]) < n && !selected(indices, cur[k] as int) by {
            if k < prev.len() {
                assert(cur[k] == prev[k]);
            }
        }
        assert forall|a: int, b: int| 0 <= a < b < cur.len() implies cur[a] < cur[b] by {
            assert(cur[a] == prev[a]);
            if b < prev.len() {
                assert(cur[b] == prev[b]);
            } else {
                assert(prev[a] < n - 1);
            }
        }
        assert forall|i: int| 0 <= i < n && !selected(indices, i) implies kept(n, indices).contains(i as usize) by {
            if i < n - 1 {
                assert(0 <= i < n - 1 && !selected(indices, i));
                assert(prev.contains(i as usize));
                let k = choose|k: int| 0 <= k < prev.len() && prev[k] == i as usize;
                assert(kept(n, indices)[k] == i as usize);
            } else {
                assert(kept(n, indices)[prev.len() as int] == (n - 1) as usize);
            }
        }
    }
}

} // verus!
