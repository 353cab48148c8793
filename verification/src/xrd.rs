use vstd::prelude::*;

verus! {

/// Friedel's law makes `(h, k, l)` and `(-h, -k, -l)` equivalent in
/// intensity: the canonical label is the one whose first nonzero index is
/// positive.
pub open spec fn needs_flip(h: int, k: int, l: int) -> bool {
    h < 0 || (h == 0 && k < 0) || (h == 0 && k == 0 && l < 0)
}

pub open spec fn canonical_spec(hkl: (int, int, int)) -> (int, int, int) {
    if needs_flip(hkl.0, hkl.1, hkl.2) {
        (-hkl.0, -hkl.1, -hkl.2)
    } else {
        hkl
    }
}

pub open spec fn triple(t: (i32, i32, i32)) -> (int, int, int) {
    (t.0 as int, t.1 as int, t.2 as int)
}

/// Canonical representative of a reflection and its Friedel mate.
pub fn canonical_hkl(hkl: (i32, i32, i32)) -> (r: (i32, i32, i32))
    requires
        needs_flip(hkl.0 as int, hkl.1 as int, hkl.2 as int) ==> (hkl.0 != i32::MIN && hkl.1 != i32::MIN
            && hkl.2 != i32::MIN),
    ensures
        triple(r) == canonical_spec(triple(hkl)),
{
    let (h, k, l) = hkl;
    let flip = h < 0 || (h == 0 && k < 0) || (h == 0 && k == 0 && l < 0);
    if flip {
        (-h, -k, -l)
    } else {
        (h, k, l)
    }
}

/// A reflection and its Friedel mate `(-h, -k, -l)` get the same label, the
/// label is itself canonical, and a label's first nonzero index is positive.
pub proof fn lemma_canonical_friedel(hkl: (int, int, int))
    ensures
        canonical_spec(hkl) == canonical_spec((-hkl.0, -hkl.1, -hkl.2)),
        canonical_spec(canonical_spec(hkl)) == canonical_spec(hkl),
        !needs_flip(canonical_spec(hkl).0, canonical_spec(hkl).1, canonical_spec(hkl).2),
{
}

/// The label of a reflection is the reflection itself or its Friedel mate,
/// and its first nonzero index is positive; `(0, 0, 0)` stays as it is.
pub proof fn lemma_canonical_sign(hkl: (int, int, int))
    ensures
        canonical_spec(hkl) == hkl || canonical_spec(hkl) == (-hkl.0, -hkl.1, -hkl.2),
        ({
            let c = canonical_spec(hkl);
            c.0 > 0 || (c.0 == 0 && c.1 > 0) || (c.0 == 0 && c.1 == 0 && c.2 >= 0)
        }),
        (hkl.0 > 0 || (hkl.0 == 0 && hkl.1 > 0) || (hkl.0 == 0 && hkl.1 == 0 && hkl.2 >= 0)) ==> canonical_spec(hkl)
            == hkl,
{
}

} // verus!
