use vstd::prelude::*;

verus! {

/// Euclid's algorithm on natural numbers.
pub open spec fn gcd_nat(a: nat, b: nat) -> nat
    decreases b,
{
    if b == 0 {
        a
    } else {
        gcd_nat(b, a % b)
    }
}

pub open spec fn abs(a: int) -> nat {
    if a < 0 {
        (-a) as nat
    } else {
        a as nat
    }
}

/// The greatest common divisor of `a` and `b`, with `gcd(0, 0)` taken as 1.
pub open spec fn gcd_spec(a: int, b: int) -> int {
    let g = gcd_nat(abs(a), abs(b));
    if g == 0 {
        1
    } else {
        g as int
    }
}

/// Common divisor of three Miller indices (1 when all are zero).
pub open spec fn gcd3(h: int, k: int, l: int) -> int {
    gcd_spec(gcd_spec(h, k), l)
}

fn gcd_u64(a: u64, b: u64) -> (r: u64)
    ensures
        r == gcd_nat(a as nat, b as nat),
    decreases b,
{
    if b == 0 {
        a
    } else {
        gcd_u64(b, a % b)
    }
}

fn abs_u64(a: i64) -> (r: u64)
    ensures
        r == abs(a as int),
{
    if a < 0 {
        if a == i64::MIN {
            9223372036854775808u64
        } else {
            (-a) as u64
        }
    } else {
        a as u64
    }
}

proof fn lemma_gcd_nat_le(a: nat, b: nat)
    ensures
        b > 0 ==> gcd_nat(a, b) <= b,
        b == 0 ==> gcd_nat(a, b) == a,
        a > 0 && b == 0 ==> gcd_nat(a, b) > 0,
        (a > 0 || b > 0) ==> gcd_nat(a, b) > 0,
    decreases b,
{
    if b > 0 {
        lemma_gcd_nat_le(b, a % b);
    }
}

/// The greatest common divisor of `a` and `b`; `gcd(0, 0)` is 1. The
/// arguments are Miller indices, so their magnitudes stay within `i32`.
fn gcd(a: i64, b: i64) -> (r: i64)
    requires
        abs(a as int) <= 0x8000_0000,
        abs(b as int) <= 0x8000_0000,
    ensures
        r == gcd_spec(a as int, b as int),
        1 <= r <= 0x8000_0000,
{
    let ua = abs_u64(a);
    let ub = abs_u64(b);
    let g = gcd_u64(ua, ub);
    proof {
        lemma_gcd_nat_le(ua as nat, ub as nat);
    }
    if g == 0 {
        1
    } else {
        g as i64
    }
}

/// Miller indices `(h k l)` of a lattice plane.
#[derive(Clone, Copy)]
pub struct MillerMath {
    pub h: i32,
    pub k: i32,
    pub l: i32,
}

/// Number of integer vectors in the search box.
pub open spec fn box_size() -> int {
    9261
}

/// The `i`-th vector of the search box, in the order `x`, then `y`, then `z`
/// each running from -10 to 10.
pub open spec fn box_vec(i: int) -> (int, int, int) {
    (i / 441 - 10, (i / 21) % 21 - 10, i % 21 - 10)
}

pub open spec fn dot(a: (int, int, int), b: (int, int, int)) -> int {
    a.0 * b.0 + a.1 * b.1 + a.2 * b.2
}

pub open spec fn cross(a: (int, int, int), b: (int, int, int)) -> (int, int, int) {
    (a.1 * b.2 - a.2 * b.1, a.2 * b.0 - a.0 * b.2, a.0 * b.1 - a.1 * b.0)
}

pub open spec fn norm2(a: (int, int, int)) -> int {
    dot(a, a)
}

pub open spec fn as_triple(v: [i32; 3]) -> (int, int, int) {
    (v[0] as int, v[1] as int, v[2] as int)
}

/// Box vector `i` lies in the plane `(h k l)` and is not zero.
pub open spec fn in_plane(hkl: (int, int, int), i: int) -> bool {
    &&& 0 <= i < box_size()
    &&& box_vec(i) != (0int, 0int, 0int)
    &&& dot(hkl, box_vec(i)) == 0
}

/// Box vector `i` lies in the plane and is not parallel to `u`.
pub open spec fn in_plane_not_parallel(hkl: (int, int, int), u: (int, int, int), i: int) -> bool {
    &&& in_plane(hkl, i)
    &&& cross(u, box_vec(i)) != (0int, 0int, 0int)
}

/// Box vector `i` steps from one plane of the family to the next one.
pub open spec fn is_stacking(hkl: (int, int, int), i: int) -> bool {
    &&& 0 <= i < box_size()
    &&& dot(hkl, box_vec(i)) == gcd3(hkl.0, hkl.1, hkl.2)
}

/// Vector `i` comes no later than vector `j` when the box vectors are sorted
/// by squared length, ties kept in enumeration order.
pub open spec fn no_later(i: int, j: int) -> bool {
    ||| norm2(box_vec(i)) < norm2(box_vec(j))
    ||| (norm2(box_vec(i)) == norm2(box_vec(j)) && i <= j)
}

/// `i` is the first of the box vectors with property `p` in that order.
pub open spec fn first_by_length(p: spec_fn(int) -> bool, i: int) -> bool {
    &&& p(i)
    &&& forall|j: int| 0 <= j < box_size() && #[trigger] p(j) ==> no_later(i, j)
}

pub open spec fn none_with(p: spec_fn(int) -> bool) -> bool {
    forall|j: int| 0 <= j < box_size() ==> !#[trigger] p(j)
}

proof fn lemma_small_products(x: int, y: int, z: int, h: int, k: int, l: int)
    requires
        -10 <= x <= 10,
        -10 <= y <= 10,
        -10 <= z <= 10,
        -0x8000_0000 <= h <= 0x8000_0000,
        -0x8000_0000 <= k <= 0x8000_0000,
        -0x8000_0000 <= l <= 0x8000_0000,
    ensures
        0 <= x * x <= 100,
        0 <= y * y <= 100,
        0 <= z * z <= 100,
        -0x5_0000_0000 <= h * x <= 0x5_0000_0000,
        -0x5_0000_0000 <= k * y <= 0x5_0000_0000,
        -0x5_0000_0000 <= l * z <= 0x5_0000_0000,
        0 <= x * x + y * y + z * z <= 300,
        -0x10_0000_0000 <= h * x + k * y + l * z <= 0x10_0000_0000,
{
    assert(0 <= x * x <= 100) by (nonlinear_arith)
        requires
            -10 <= x <= 10,
    ;
    assert(0 <= y * y <= 100) by (nonlinear_arith)
        requires
            -10 <= y <= 10,
    ;
    assert(0 <= z * z <= 100) by (nonlinear_arith)
        requires
            -10 <= z <= 10,
    ;
    assert(-0x5_0000_0000 <= h * x <= 0x5_0000_0000) by (nonlinear_arith)
        requires
            -10 <= x <= 10,
            -0x8000_0000 <= h <= 0x8000_0000,
    ;
    assert(-0x5_0000_0000 <= k * y <= 0x5_0000_0000) by (nonlinear_arith)
        requires
            -10 <= y <= 10,
            -0x8000_0000 <= k <= 0x8000_0000,
    ;
    assert(-0x5_0000_0000 <= l * z <= 0x5_0000_0000) by (nonlinear_arith)
        requires
            -10 <= z <= 10,
            -0x8000_0000 <= l <= 0x8000_0000,
    ;
}

proof fn lemma_small_product(a: int, b: int)
    requires
        -10 <= a <= 10,
        -10 <= b <= 10,
    ensures
        -100 <= a * b <= 100,
{
    assert(-100 <= a * b <= 100) by (nonlinear_arith)
        requires
            -10 <= a <= 10,
            -10 <= b <= 10,
    ;
}

/// The components of box vector `i`.
fn box_vec_exec(i: i64) -> (r: (i64, i64, i64))
    requires
        0 <= i < 9261,
    ensures
        (r.0 as int, r.1 as int, r.2 as int) == box_vec(i as int),
        -10 <= r.0 <= 10,
        -10 <= r.1 <= 10,
        -10 <= r.2 <= 10,
{
    (i / 441 - 10, (i / 21) % 21 - 10, i % 21 - 10)
}

/// Squared length and plane product of box vector `i`.
fn measure(h: i64, k: i64, l: i64, i: i64) -> (r: (i64, i64))
    requires
        0 <= i < 9261,
        -0x8000_0000 <= h <= 0x8000_0000,
        -0x8000_0000 <= k <= 0x8000_0000,
        -0x8000_0000 <= l <= 0x8000_0000,
    ensures
        r.0 == norm2(box_vec(i as int)),
        r.1 == dot((h as int, k as int, l as int), box_vec(i as int)),
{
    let (x, y, z) = box_vec_exec(i);
    proof {
        lemma_small_products(x as int, y as int, z as int, h as int, k as int, l as int);
    }
    (x * x + y * y + z * z, h * x + k * y + l * z)
}

/// The shortest box vector whose plane product equals `target` (and, when
/// `skip_zero`, that is not the zero vector; when `avoid` is given, that is
/// not parallel to it).
fn first_shortest(
    h: i64,
    k: i64,
    l: i64,
    target: i64,
    skip_zero: bool,
    avoid: Option<(i64, i64, i64)>,
    p: Ghost<spec_fn(int) -> bool>,
) -> (r: Option<i64>)
    requires
        -0x8000_0000 <= h <= 0x8000_0000,
        -0x8000_0000 <= k <= 0x8000_0000,
        -0x8000_0000 <= l <= 0x8000_0000,
        avoid matches Some(a) ==> (-10 <= a.0 <= 10 && -10 <= a.1 <= 10 && -10 <= a.2 <= 10),
        forall|j: int|
            0 <= j < box_size() ==> (#[trigger] p@(j) <==> {
                &&& dot((h as int, k as int, l as int), box_vec(j)) == target
                &&& skip_zero ==> box_vec(j) != (0int, 0int, 0int)
                &&& avoid matches Some(a) ==> cross(
                    (a.0 as int, a.1 as int, a.2 as int),
                    box_vec(j),
                ) != (0int, 0int, 0int)
            }),
    ensures
        r matches Some(i) ==> 0 <= i < box_size() && first_by_length(p@, i as int),
        r is None ==> none_with(p@),
{
    let mut best: Option<i64> = None;
    let mut best_norm: i64 = 0;
    let mut i: i64 = 0;
    while i < 9261
        invariant
            0 <= i <= 9261,
            -0x8000_0000 <= h <= 0x8000_0000,
            -0x8000_0000 <= k <= 0x8000_0000,
            -0x8000_0000 <= l <= 0x8000_0000,
            avoid matches Some(a) ==> (-10 <= a.0 <= 10 && -10 <= a.1 <= 10 && -10 <= a.2 <= 10),
            forall|j: int|
                0 <= j < box_size() ==> (#[trigger] p@(j) <==> {
                    &&& dot((h as int, k as int, l as int), box_vec(j)) == target
                    &&& skip_zero ==> box_vec(j) != (0int, 0int, 0int)
                    &&& avoid matches Some(a) ==> cross(
                        (a.0 as int, a.1 as int, a.2 as int),
                        box_vec(j),
                    ) != (0int, 0int, 0int)
                }),
            best matches Some(b) ==> {
                &&& 0 <= b < i
                &&& p@(b as int)
                &&& best_norm == norm2(box_vec(b as int))
                &&& forall|j: int| 0 <= j < i && #[trigger] p@(j) ==> no_later(b as int, j)
            },
            best is None ==> forall|j: int| 0 <= j < i ==> !#[trigger] p@(j),
        decreases 9261 - i,
    {
        let (x, y, z) = box_vec_exec(i);
        let (n, d) = measure(h, k, l, i);
        let mut ok = d == target;
        if skip_zero && x == 0 && y == 0 && z == 0 {
            ok = false;
        }
        if let Some(a) = avoid {
            proof {
                lemma_small_product(a.1 as int, z as int);
                lemma_small_product(a.2 as int, y as int);
                lemma_small_product(a.2 as int, x as int);
                lemma_small_product(a.0 as int, z as int);
                lemma_small_product(a.0 as int, y as int);
                lemma_small_product(a.1 as int, x as int);
            }
            let c0 = a.1 * z - a.2 * y;
            let c1 = a.2 * x - a.0 * z;
            let c2 = a.0 * y - a.1 * x;
            if c0 == 0 && c1 == 0 && c2 == 0 {
                ok = false;
            }
        }
        assert(ok == p@(i as int));
        if ok {
            match best {
                Some(b) => {
                    if n < best_norm {
                        best = Some(i);
                        best_norm = n;
                    }
                },
                None => {
                    best = Some(i);
                    best_norm = n;
                },
            }
        }
        i = i + 1;
    }
    best
}


/// `r` is an error carrying the message `m`.
pub open spec fn fails_with<T>(r: Result<T, String>, m: Seq<char>) -> bool {
    match r {
        Err(e) => e@ == m,
        Ok(_) => false,
    }
}

pub open spec fn zero_indices_msg() -> Seq<char> {
    "Miller indices cannot be (0,0,0)"@
}

pub open spec fn no_surface_vectors_msg() -> Seq<char> {
    "Could not find surface vectors. Indices might be too high."@
}

pub open spec fn no_surface_cell_msg() -> Seq<char> {
    "Could not define primitive surface unit cell."@
}

pub open spec fn no_stacking_msg() -> Seq<char> {
    "Could not find valid stacking vector for these indices."@
}

pub open spec fn plane_pred(hkl: (int, int, int)) -> spec_fn(int) -> bool {
    |i: int| in_plane(hkl, i)
}

pub open spec fn not_parallel_pred(hkl: (int, int, int), u: (int, int, int)) -> spec_fn(int) -> bool {
    |i: int| in_plane_not_parallel(hkl, u, i)
}

pub open spec fn stacking_pred(hkl: (int, int, int)) -> spec_fn(int) -> bool {
    |i: int| is_stacking(hkl, i)
}

/// `(u, v, w)` is the basis that `find_basis` chooses for the plane `hkl`:
/// `u` the shortest in-plane vector, `v` the shortest in-plane vector not
/// parallel to `u`, `w` the shortest vector from one plane of the family to
/// the next, all searched in the box `[-10, 10]^3`.
pub open spec fn is_chosen_basis(hkl: (int, int, int), u: (int, int, int), v: (int, int, int), w: (int, int, int)) -> bool {
    &&& exists|iu: int| #[trigger] first_by_length(plane_pred(hkl), iu) && box_vec(iu) == u
    &&& exists|iv: int| #[trigger] first_by_length(not_parallel_pred(hkl, u), iv) && box_vec(iv) == v
    &&& exists|iw: int| #[trigger] first_by_length(stacking_pred(hkl), iw) && box_vec(iw) == w
}

/// The index of the first box vector with property `p` (see
/// `first_by_length`).
pub open spec fn chosen(p: spec_fn(int) -> bool) -> int {
    choose|i: int| first_by_length(p, i)
}

/// What `find_basis` gives for the indices `hkl`: the chosen basis, or the
/// message of the first search that finds nothing.
pub open spec fn basis_of(hkl: (int, int, int)) -> Result<((int, int, int), (int, int, int), (int, int, int)), Seq<char>> {
    if hkl == (0int, 0int, 0int) {
        Err(zero_indices_msg())
    } else if none_with(plane_pred(hkl)) {
        Err(no_surface_vectors_msg())
    } else {
        let u = box_vec(chosen(plane_pred(hkl)));
        if none_with(not_parallel_pred(hkl, u)) {
            Err(no_surface_cell_msg())
        } else if none_with(stacking_pred(hkl)) {
            Err(no_stacking_msg())
        } else {
            Ok((u, box_vec(chosen(not_parallel_pred(hkl, u))), box_vec(chosen(stacking_pred(hkl)))))
        }
    }
}

pub open spec fn basis_view(r: Result<([i32; 3], [i32; 3], [i32; 3]), String>) -> Result<((int, int, int), (int, int, int), (int, int, int)), Seq<char>> {
    match r {
        Ok(b) => Ok((as_triple(b.0), as_triple(b.1), as_triple(b.2))),
        Err(e) => Err(e@),
    }
}

proof fn lemma_first_unique(p: spec_fn(int) -> bool, i: int, j: int)
    requires
        first_by_length(p, i),
        first_by_length(p, j),
        0 <= i < box_size(),
        0 <= j < box_size(),
    ensures
        i == j,
{
    assert(no_later(i, j));
    assert(no_later(j, i));
}

proof fn lemma_no_later_total(i: int, j: int)
    ensures
        no_later(i, j) || no_later(j, i),
{
}

proof fn lemma_no_later_transitive(i: int, j: int, k: int)
    requires
        no_later(i, j),
        no_later(j, k),
    ensures
        no_later(i, k),
{
}

/// `i` is the first of the first `n` box vectors with property `p`.
spec fn first_in(p: spec_fn(int) -> bool, n: int, i: int) -> bool {
    0 <= i < n && p(i) && forall|j: int| 0 <= j < n && #[trigger] p(j) ==> no_later(i, j)
}

/// Among the first `n` box vectors, one with property `p` comes first.
proof fn lemma_first_in_prefix(p: spec_fn(int) -> bool, n: int)
    requires
        0 <= n <= box_size(),
        exists|j: int| 0 <= j < n && #[trigger] p(j),
    ensures
        exists|i: int| #[trigger] first_in(p, n, i),
    decreases n,
{
    if exists|j: int| 0 <= j < n - 1 && #[trigger] p(j) {
        lemma_first_in_prefix(p, n - 1);
        let i = choose|i: int| #[trigger] first_in(p, n - 1, i);
        if p(n - 1) && !no_later(i, n - 1) {
            lemma_no_later_total(i, n - 1);
            assert forall|j: int| 0 <= j < n && #[trigger] p(j) implies no_later(n - 1, j) by {
                if j < n - 1 {
                    lemma_no_later_transitive(n - 1, i, j);
                }
            }
            assert(first_in(p, n, n - 1));
        } else {
            assert forall|j: int| 0 <= j < n && #[trigger] p(j) implies no_later(i, j) by {
                if j == n - 1 {
                    assert(no_later(i, j));
                }
            }
            assert(first_in(p, n, i));
        }
    } else {
        assert(p(n - 1));
        assert forall|j: int| 0 <= j < n && #[trigger] p(j) implies no_later(n - 1, j) by {
            assert(j == n - 1);
        }
        assert(first_in(p, n, n - 1));
    }
}

/// When some box vector has property `p`, `chosen(p)` is the first one.
proof fn lemma_chosen(p: spec_fn(int) -> bool)
    requires
        !none_with(p),
    ensures
        first_by_length(p, chosen(p)),
{
    let j = choose|j: int| 0 <= j < box_size() && #[trigger] p(j);
    assert(0 <= j < box_size() && p(j));
    lemma_first_in_prefix(p, box_size());
    let i = choose|i: int| #[trigger] first_in(p, box_size(), i);
    assert(first_by_length(p, i));
}

/// Two properties that hold of the same box vectors choose the same one.
proof fn lemma_chosen_same(p: spec_fn(int) -> bool, q: spec_fn(int) -> bool)
    requires
        forall|i: int| #![trigger p(i)] #![trigger q(i)] 0 <= i < box_size() ==> p(i) == q(i),
        forall|i: int| #[trigger] p(i) ==> 0 <= i < box_size(),
        forall|i: int| #[trigger] q(i) ==> 0 <= i < box_size(),
    ensures
        none_with(p) == none_with(q),
        !none_with(p) ==> chosen(p) == chosen(q),
{
    if !none_with(p) {
        let j = choose|j: int| 0 <= j < box_size() && #[trigger] p(j);
        assert(q(j));
        assert(!none_with(q));
        lemma_chosen(p);
        lemma_chosen(q);
        let a = chosen(p);
        let b = chosen(q);
        assert(first_by_length(q, a)) by {
            assert(q(a));
            assert forall|k: int| 0 <= k < box_size() && #[trigger] q(k) implies no_later(a, k) by {
                assert(p(k));
            }
        }
        lemma_first_unique(q, a, b);
    } else {
        assert forall|j: int| 0 <= j < box_size() implies !#[trigger] q(j) by {
            assert(!p(j));
        }
    }
}

proof fn lemma_gcd_nat_scale(m: nat, a: nat, b: nat)
    requires
        m > 0,
    ensures
        gcd_nat(m * a, m * b) == m * gcd_nat(a, b),
    decreases b,
{
    if b > 0 {
        vstd::arithmetic::div_mod::lemma_truncate_middle(a as int, m as int, b as int);
        assert(m * b > 0) by (nonlinear_arith)
            requires
                m > 0,
                b > 0,
        ;
        assert((m * a) % (m * b) == m * (a % b));
        lemma_gcd_nat_scale(m, b, a % b);
    } else {
        assert(m * b == 0) by (nonlinear_arith)
            requires
                b == 0,
        ;
    }
}

proof fn lemma_abs_scale(m: int, a: int)
    requires
        m > 0,
    ensures
        abs(m * a) == m * abs(a),
{
    if a < 0 {
        assert(m * a < 0) by (nonlinear_arith)
            requires
                m > 0,
                a < 0,
        ;
        assert(-(m * a) == m * (-a)) by (nonlinear_arith);
    } else {
        assert(m * a >= 0) by (nonlinear_arith)
            requires
                m > 0,
                a >= 0,
        ;
    }
}

proof fn lemma_gcd_spec_scale(m: int, a: int, b: int)
    requires
        m > 0,
        a != 0 || b != 0,
    ensures
        gcd_spec(m * a, m * b) == m * gcd_spec(a, b),
        gcd_spec(a, b) > 0,
{
    lemma_abs_scale(m, a);
    lemma_abs_scale(m, b);
    lemma_gcd_nat_scale(m as nat, abs(a), abs(b));
    lemma_gcd_nat_le(abs(a), abs(b));
    let g = gcd_nat(abs(a), abs(b));
    assert(g > 0);
    assert(m * g > 0) by (nonlinear_arith)
        requires
            m > 0,
            g > 0,
    ;
}

proof fn lemma_dot_scale(m: int, t: (int, int, int), v: (int, int, int))
    ensures
        dot((m * t.0, m * t.1, m * t.2), v) == m * dot(t, v),
{
    let (a, b, c) = (t.0 * v.0, t.1 * v.1, t.2 * v.2);
    vstd::arithmetic::mul::lemma_mul_is_associative(m, t.0, v.0);
    vstd::arithmetic::mul::lemma_mul_is_associative(m, t.1, v.1);
    vstd::arithmetic::mul::lemma_mul_is_associative(m, t.2, v.2);
    vstd::arithmetic::mul::lemma_mul_is_distributive_add(m, a + b, c);
    vstd::arithmetic::mul::lemma_mul_is_distributive_add(m, a, b);
}

/// The basis `find_basis` returns is a basis of the plane and its stacking:
/// `u` and `v` are non-zero vectors of the plane `(h k l)` (perpendicular
/// to the indices) that are not parallel, `u` no longer than any other
/// vector of the plane in the search box and `v` no longer than any other
/// one not parallel to `u`; `w` steps by the common divisor of the indices,
/// i.e. from one plane of the reduced family to the next.
pub proof fn lemma_basis_geometry(hkl: (int, int, int))
    ensures
        basis_of(hkl) matches Ok(b) ==> {
            let (u, v, w) = b;
            &&& u != (0int, 0int, 0int) && dot(hkl, u) == 0
            &&& v != (0int, 0int, 0int) && dot(hkl, v) == 0
            &&& cross(u, v) != (0int, 0int, 0int)
            &&& dot(hkl, w) == gcd3(hkl.0, hkl.1, hkl.2)
            &&& forall|i: int| #[trigger] in_plane(hkl, i) ==> norm2(u) <= norm2(box_vec(i))
            &&& forall|i: int| #[trigger] in_plane_not_parallel(hkl, u, i) ==> norm2(v) <= norm2(box_vec(i))
            &&& forall|i: int| #[trigger] is_stacking(hkl, i) ==> norm2(w) <= norm2(box_vec(i))
        },
        hkl == (0int, 0int, 0int) ==> basis_of(hkl) is Err,
{
    if hkl != (0int, 0int, 0int) && !none_with(plane_pred(hkl)) {
        lemma_chosen(plane_pred(hkl));
        let u = box_vec(chosen(plane_pred(hkl)));
        assert(plane_pred(hkl)(chosen(plane_pred(hkl))));
        assert forall|i: int| #[trigger] in_plane(hkl, i) implies norm2(u) <= norm2(box_vec(i)) by {
            assert(plane_pred(hkl)(i));
        }
        if !none_with(not_parallel_pred(hkl, u)) && !none_with(stacking_pred(hkl)) {
            lemma_chosen(not_parallel_pred(hkl, u));
            lemma_chosen(stacking_pred(hkl));
            let iv = chosen(not_parallel_pred(hkl, u));
            let iw = chosen(stacking_pred(hkl));
            assert(not_parallel_pred(hkl, u)(iv));
            assert(stacking_pred(hkl)(iw));
            assert forall|i: int| #[trigger] in_plane_not_parallel(hkl, u, i) implies norm2(box_vec(iv)) <= norm2(
                box_vec(i),
            ) by {
                assert(not_parallel_pred(hkl, u)(i));
            }
            assert forall|i: int| #[trigger] is_stacking(hkl, i) implies norm2(box_vec(iw)) <= norm2(box_vec(i)) by {
                assert(stacking_pred(hkl)(i));
            }
        }
    }
}

/// Miller indices with a common factor name the same plane orientation:
/// `(m h, m k, m l)` gives the same basis, or the same error, as `(h k l)`.
/// The law needs `h` or `k` to be nonzero: for `(0 0 l)` the common divisor
/// is taken as 1, so `(0 0 2)` is not reduced and has no stacking vector.
pub proof fn lemma_common_factor(h: int, k: int, l: int, m: int)
    requires
        m >= 1,
        h != 0 || k != 0,
    ensures
        basis_of((m * h, m * k, m * l)) == basis_of((h, k, l)),
{
    let t = (h, k, l);
    let s = (m * h, m * k, m * l);
    lemma_gcd_spec_scale(m, h, k);
    let g2 = gcd_spec(h, k);
    lemma_gcd_spec_scale(m, g2, l);
    assert(gcd3(s.0, s.1, s.2) == m * gcd3(h, k, l));
    assert(s != (0int, 0int, 0int)) by {
        if h != 0 {
            assert(m * h != 0) by (nonlinear_arith)
                requires
                    m >= 1,
                    h != 0,
            ;
        } else {
            assert(m * k != 0) by (nonlinear_arith)
                requires
                    m >= 1,
                    k != 0,
            ;
        }
    }
    assert forall|i: int| 0 <= i < box_size() implies #[trigger] in_plane(s, i) == in_plane(t, i) by {
        lemma_dot_scale(m, t, box_vec(i));
        let d = dot(t, box_vec(i));
        assert((m * d == 0) == (d == 0)) by (nonlinear_arith)
            requires
                m >= 1,
        ;
    }
    assert forall|i: int| 0 <= i < box_size() implies #[trigger] is_stacking(s, i) == is_stacking(t, i) by {
        lemma_dot_scale(m, t, box_vec(i));
        let d = dot(t, box_vec(i));
        let g = gcd3(h, k, l);
        assert((m * d == m * g) == (d == g)) by (nonlinear_arith)
            requires
                m >= 1,
        ;
    }
    lemma_chosen_same(plane_pred(s), plane_pred(t));
    lemma_chosen_same(stacking_pred(s), stacking_pred(t));
    if !none_with(plane_pred(t)) {
        let u = box_vec(chosen(plane_pred(t)));
        assert(box_vec(chosen(plane_pred(s))) == u);
        lemma_chosen_same(not_parallel_pred(s, u), not_parallel_pred(t, u));
    }
}

impl MillerMath {
    pub fn new(h: i32, k: i32, l: i32) -> (r: Self)
        ensures
            r.h == h,
            r.k == k,
            r.l == l,
    {
        Self { h, k, l }
    }

    pub open spec fn hkl(&self) -> (int, int, int) {
        (self.h as int, self.k as int, self.l as int)
    }

    /// Integer basis `(u, v, w)` of the lattice adapted to the plane
    /// `(h k l)`: `u` and `v` span the plane and `w` is a stacking vector.
    /// Indices with a common divisor denote the same orientation, so `w`
    /// reaches the next plane of the reduced family.
    pub fn find_basis(&self) -> (r: Result<([i32; 3], [i32; 3], [i32; 3]), String>)
        ensures
            basis_view(r) == basis_of(self.hkl()),
    {
        let r = self.search_basis();
        proof {
            let hkl = self.hkl();
            if let Ok(b) = r {
                let u = as_triple(b.0);
                let iu = choose|iu: int| #[trigger] first_by_length(plane_pred(hkl), iu) && box_vec(iu) == u;
                lemma_first_unique(plane_pred(hkl), iu, chosen(plane_pred(hkl)));
                let iv = choose|iv: int| #[trigger] first_by_length(not_parallel_pred(hkl, u), iv) && box_vec(iv) == as_triple(b.1);
                lemma_first_unique(not_parallel_pred(hkl, u), iv, chosen(not_parallel_pred(hkl, u)));
                let iw = choose|iw: int| #[trigger] first_by_length(stacking_pred(hkl), iw) && box_vec(iw) == as_triple(b.2);
                lemma_first_unique(stacking_pred(hkl), iw, chosen(stacking_pred(hkl)));
                assert(!none_with(plane_pred(hkl))) by {
                    assert(plane_pred(hkl)(iu));
                }
                assert(!none_with(not_parallel_pred(hkl, u))) by {
                    assert(not_parallel_pred(hkl, u)(iv));
                }
                assert(!none_with(stacking_pred(hkl))) by {
                    assert(stacking_pred(hkl)(iw));
                }
            }
        }
        r
    }

    fn search_basis(&self) -> (r: Result<([i32; 3], [i32; 3], [i32; 3]), String>)
        ensures
            self.hkl() == (0int, 0int, 0int) ==> fails_with(r, zero_indices_msg()),
            self.hkl() != (0int, 0int, 0int) && none_with(plane_pred(self.hkl())) ==> fails_with(r, no_surface_vectors_msg()),
            self.hkl() != (0int, 0int, 0int) && !none_with(plane_pred(self.hkl())) ==> {
                let u = box_vec(choose|iu: int| first_by_length(plane_pred(self.hkl()), iu));
                &&& none_with(not_parallel_pred(self.hkl(), u)) ==> fails_with(r, no_surface_cell_msg())
                &&& !none_with(not_parallel_pred(self.hkl(), u)) && none_with(stacking_pred(self.hkl()))
                    ==> fails_with(r, no_stacking_msg())
                &&& !none_with(not_parallel_pred(self.hkl(), u)) && !none_with(stacking_pred(self.hkl()))
                    ==> r is Ok
            },
            r matches Ok(b) ==> is_chosen_basis(self.hkl(), as_triple(b.0), as_triple(b.1), as_triple(b.2)),
    {
        let ghost hkl = self.hkl();
        if self.h == 0 && self.k == 0 && self.l == 0 {
            return Err(String::from_str("Miller indices cannot be (0,0,0)"));
        }
        let h = self.h as i64;
        let k = self.k as i64;
        let l = self.l as i64;
        let g = gcd(gcd(h, k), l);
        let iu = first_shortest(h, k, l, 0, true, None, Ghost(plane_pred(hkl)));
        let iu = match iu {
            Some(i) => i,
            None => {
                return Err(String::from_str("Could not find surface vectors. Indices might be too high."));
            },
        };
        let u = box_vec_exec(iu);
        proof {
            assert(!none_with(plane_pred(hkl))) by {
                assert(plane_pred(hkl)(iu as int));
            }
            let c = choose|j: int| first_by_length(plane_pred(hkl), j);
            assert(first_by_length(plane_pred(hkl), c));
            assert(no_later(c, iu as int) && no_later(iu as int, c));
            assert(c == iu);
        }
        let ghost ut = box_vec(iu as int);
        let iv = first_shortest(h, k, l, 0, true, Some(u), Ghost(not_parallel_pred(hkl, ut)));
        let iv = match iv {
            Some(i) => i,
            None => {
                return Err(String::from_str("Could not define primitive surface unit cell."));
            },
        };
        let iw = first_shortest(h, k, l, g, false, None, Ghost(stacking_pred(hkl)));
        let iw = match iw {
            Some(i) => i,
            None => {
                return Err(String::from_str("Could not find valid stacking vector for these indices."));
            },
        };
        let v = box_vec_exec(iv);
        let w = box_vec_exec(iw);
        let ub = [u.0 as i32, u.1 as i32, u.2 as i32];
        let vb = [v.0 as i32, v.1 as i32, v.2 as i32];
        let wb = [w.0 as i32, w.1 as i32, w.2 as i32];
        proof {
            assert(as_triple(ub) == ut);
            assert(first_by_length(plane_pred(hkl), iu as int));
            assert(first_by_length(not_parallel_pred(hkl, ut), iv as int));
            assert(first_by_length(stacking_pred(hkl), iw as int));
        }
        Ok((ub, vb, wb))
    }
}

} // verus!
