use vstd::prelude::*;

use crate::elements::{atomic_number, get_atomic_number, lemma_atomic_number_roundtrip};
use crate::formula::{formula, generate_formula};
use crate::text::{same_text, string_views};

verus! {

/// Cell to convert a structure to.
#[derive(Debug, Clone, Copy, PartialEq, Eq, Structural)]
pub enum CellType {
    Primitive,
    Conventional,
}

/// The chemical formula of a converted structure (see `generate_formula`).
pub fn build_formula(elements: &Vec<String>) -> (r: String)
    ensures
        r@ == formula(string_views(elements@)),
{
    generate_formula(elements)
}

/// The species of `els` in order of first appearance.
pub open spec fn first_seen(els: Seq<Seq<char>>) -> Seq<Seq<char>>
    decreases els.len(),
{
    if els.len() == 0 {
        seq![]
    } else if first_seen(els.drop_last()).contains(els.last()) {
        first_seen(els.drop_last())
    } else {
        first_seen(els.drop_last()).push(els.last())
    }
}

/// The type number given to the `k`-th species: its atomic number when the
/// symbol is known, otherwise the negative number -(k + 1).
pub open spec fn species_id(name: Seq<char>, k: int) -> int {
    if atomic_number(name) > 0 {
        atomic_number(name)
    } else {
        -(k + 1)
    }
}

fn contains_name(names: &Vec<String>, e: &str) -> (r: bool)
    ensures
        r == string_views(names@).contains(e@),
{
    let mut k: usize = 0;
    while k < names.len()
        invariant
            k <= names.len(),
            forall|j: int| 0 <= j < k ==> #[trigger] string_views(names@)[j] != e@,
        decreases names.len() - k,
    {
        if same_text(names[k].as_str(), e) {
            assert(string_views(names@)[k as int] == e@);
            return true;
        }
        k = k + 1;
    }
    false
}

/// The species of a structure, in order of first appearance, with the type
/// numbers handed to the symmetry search.
pub fn species_ids(elements: &Vec<String>) -> (r: (Vec<String>, Vec<i32>))
    requires
        elements@.len() < 0x7fff_ffff,
    ensures
        string_views(r.0@) == first_seen(string_views(elements@)),
        r.1@.len() == r.0@.len(),
        forall|k: int| 0 <= k < r.1@.len() ==> #[trigger] r.1@[k] == species_id(string_views(r.0@)[k], k),
{
    let ghost els = string_views(elements@);
    let mut names: Vec<String> = Vec::new();
    let mut ids: Vec<i32> = Vec::new();
    let mut i: usize = 0;
    while i < elements.len()
        invariant
            i <= elements.len(),
            els == string_views(elements@),
            string_views(names@) == first_seen(els.take(i as int)),
            ids@.len() == names@.len(),
            names@.len() <= i,
            elements@.len() < 0x7fff_ffff,
            forall|k: int| 0 <= k < ids@.len() ==> #[trigger] ids@[k] == species_id(string_views(names@)[k], k),
        decreases elements.len() - i,
    {
        let e = elements[i].as_str();
        assert(els.take(i + 1).drop_last() =~= els.take(i as int));
        assert(els.take(i + 1).last() == e@);
        if !contains_name(&names, e) {
            let z = get_atomic_number(e);
            let id = if z > 0 { z } else { -((names.len() as i32) + 1) };
            let ghost before = string_views(names@);
            let ghost old_ids = ids@;
            let ghost n = names@.len() as int;
            assert(id == species_id(e@, n));
            names.push(String::from_str(e));
            ids.push(id);
            assert(string_views(names@) =~= before.push(e@));
            assert forall|k: int| 0 <= k < ids@.len() implies #[trigger] ids@[k] == species_id(string_views(names@)[k], k) by {
                if k < n {
                    assert(ids@[k] == old_ids[k]);
                    assert(string_views(names@)[k] == before[k]);
                }
            }
        }
        i = i + 1;
    }
    assert(els.take(i as int) =~= els);
    (names, ids)
}

/// The distinct element names in order of first appearance, and for each atom
/// the 1-based number of its element in that list (the type numbers of
/// SPR-KKR and Quantum Espresso files).
pub fn first_seen_types(elements: &Vec<String>) -> (r: (Vec<String>, Vec<usize>))
    ensures
        string_views(r.0@) == first_seen(string_views(elements@)),
        r.1@.len() == elements@.len(),
        forall|i: int| 0 <= i < r.1@.len() ==> {
            let t = #[trigger] r.1@[i] as int;
            1 <= t <= r.0@.len() && string_views(r.0@)[t - 1] == string_views(elements@)[i]
        },
{
    let ghost els = string_views(elements@);
    let mut names: Vec<String> = Vec::new();
    let mut types: Vec<usize> = Vec::new();
    let mut i: usize = 0;
    while i < elements.len()
        invariant
            i <= elements.len(),
            els == string_views(elements@),
            string_views(names@) == first_seen(els.take(i as int)),
            names@.len() <= i,
            types@.len() == i,
            forall|k: int| 0 <= k < i ==> {
                let t = #[trigger] types@[k] as int;
                1 <= t <= names@.len() && string_views(names@)[t - 1] == els[k]
            },
        decreases elements.len() - i,
    {
        let e = elements[i].as_str();
        assert(els.take(i + 1).drop_last() =~= els.take(i as int));
        assert(els.take(i + 1).last() == e@);
        let mut k: usize = 0;
        while k < names.len()
            invariant
                k <= names.len(),
                forall|j: int| 0 <= j < k ==> #[trigger] string_views(names@)[j] != e@,
            ensures
                k <= names.len(),
                forall|j: int| 0 <= j < k ==> #[trigger] string_views(names@)[j] != e@,
                k < names.len() ==> string_views(names@)[k as int] == e@,
            decreases names.len() - k,
        {
            if same_text(names[k].as_str(), e) {
                break;
            }
            k = k + 1;
        }
        if k == names.len() {
            assert(!string_views(names@).contains(e@));
            let ghost before = string_views(names@);
            names.push(String::from_str(e));
            assert(string_views(names@) =~= before.push(e@));
            types.push(k + 1);
            assert forall|m: int| 0 <= m < i + 1 implies {
                let t = #[trigger] types@[m] as int;
                1 <= t <= names@.len() && string_views(names@)[t - 1] == els[m]
            } by {
                if m < i {
                    assert(string_views(names@)[types@[m] as int - 1] == before[types@[m] as int - 1]);
                }
            }
        } else {
            assert(string_views(names@)[k as int] == e@);
            assert(string_views(names@).contains(e@));
            types.push(k + 1);
        }
        i = i + 1;
    }
    assert(els.take(i as int) =~= els);
    (names, types)
}

/// The species a symmetry search result labels `id`: the name given that
/// number by `species_ids`, or `X` for a number not handed out.
pub open spec fn name_for_id(names: Seq<Seq<char>>, ids: Seq<i32>, id: i32) -> Seq<char>
    decreases names.len(),
{
    if names.len() == 0 || ids.len() == 0 {
        "X"@
    } else if ids[0] == id {
        names[0]
    } else {
        name_for_id(names.drop_first(), ids.drop_first(), id)
    }
}

/// Looks up the species of a type number returned by the symmetry search.
pub fn name_of_id(names: &Vec<String>, ids: &Vec<i32>, id: i32) -> (r: String)
    ensures
        r@ == name_for_id(string_views(names@), ids@, id),
{
    let ghost ns = string_views(names@);
    let mut k: usize = 0;
    assert(ns.skip(0) =~= ns);
    assert(ids@.skip(0) =~= ids@);
    while k < names.len() && k < ids.len()
        invariant
            k <= names.len(),
            k <= ids.len(),
            ns == string_views(names@),
            ns.len() == names@.len(),
            name_for_id(ns.skip(k as int), ids@.skip(k as int), id) == name_for_id(ns, ids@, id),
        decreases names.len() - k,
    {
        assert(ns.skip(k as int).drop_first() =~= ns.skip(k + 1));
        assert(ids@.skip(k as int).drop_first() =~= ids@.skip(k + 1));
        if ids[k] == id {
            return names[k].clone();
        }
        k = k + 1;
    }
    assert(ns.skip(k as int).len() == 0 || ids@.skip(k as int).len() == 0);
    String::from_str("X")
}

/// The element with 1-based type number `t` in the list `names`, or `X` past
/// its end.
pub fn name_of_type(names: &Vec<String>, t: i32) -> (r: String)
    requires
        t >= 1,
    ensures
        t <= names@.len() ==> r@ == names@[t - 1]@,
        t > names@.len() ==> r@ == "X"@,
{
    if (t as usize) - 1 < names.len() {
        names[(t - 1) as usize].clone()
    } else {
        String::from_str("X")
    }
}

proof fn lemma_first_seen_distinct(els: Seq<Seq<char>>)
    ensures
        forall|a: int, b: int| 0 <= a < b < first_seen(els).len() ==> first_seen(els)[a] != first_seen(els)[b],
    decreases els.len(),
{
    if els.len() > 0 {
        lemma_first_seen_distinct(els.drop_last());
        let prev = first_seen(els.drop_last());
        if !prev.contains(els.last()) {
            assert forall|a: int, b: int| 0 <= a < b < first_seen(els).len() implies first_seen(els)[a] != first_seen(els)[b] by {
                if b == prev.len() {
                    assert(first_seen(els)[a] == prev[a]);
                }
            }
        }
    }
}

/// Distinct species get distinct type numbers, so the symmetry search never
/// confuses two species.
pub proof fn lemma_species_ids_distinct(els: Seq<Seq<char>>, a: int, b: int)
    requires
        0 <= a < b < first_seen(els).len(),
    ensures
        species_id(first_seen(els)[a], a) != species_id(first_seen(els)[b], b),
{
    lemma_first_seen_distinct(els);
    let x = first_seen(els)[a];
    let y = first_seen(els)[b];
    lemma_atomic_number_roundtrip(0, x);
    lemma_atomic_number_roundtrip(0, y);
}

} // verus!
