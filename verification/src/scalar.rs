//! The prime field that all algebraic evidence lives in.
//!
//! Columns, auxiliary values and claimed evaluations are reduced into this
//! field; the spec-level functions `fadd` / `fsub` / `fmul` are the
//! mathematical model that every contract in the crate speaks of.
use vstd::prelude::*;

verus! {

use vstd::arithmetic::div_mod::{
    lemma_add_mod_noop_right,
    lemma_mod_add_multiples_vanish,
    lemma_mod_bound,
    lemma_small_mod,
};

/// Order of the scalar field: the Mersenne prime 2^61 - 1.
pub const FIELD_ORDER: u64 = 2305843009213693951;

/// Reduction of an integer into the field.
pub open spec fn fmod(a: int) -> int {
    a % (FIELD_ORDER as int)
}

/// Field addition.
pub open spec fn fadd(a: int, b: int) -> int {
    fmod(a + b)
}

/// Field subtraction.
pub open spec fn fsub(a: int, b: int) -> int {
    fmod(a - b)
}

/// Field multiplication.
pub open spec fn fmul(a: int, b: int) -> int {
    fmod(a * b)
}

/// A fully reduced field representative.
pub open spec fn in_field(a: int) -> bool {
    0 <= a < FIELD_ORDER as int
}

/// An element of the scalar field.
#[derive(Clone, Copy, Debug, PartialEq, Eq, Structural, Hash)]
pub struct Scalar {
    v: u64,
}

impl Scalar {
    #[verifier::type_invariant]
    spec fn type_inv(self) -> bool {
        self.v < FIELD_ORDER
    }

    /// The field element this value represents, as a mathematical integer.
    pub closed spec fn value(self) -> int {
        self.v as int
    }

    /// Two scalars are equal exactly when they represent the same field element.
    pub proof fn lemma_eq_value(self, other: Scalar)
        ensures
            (self == other) <==> (self.value() == other.value()),
    {
    }

    pub fn zero() -> (r: Scalar)
        ensures
            r.value() == 0,
    {
        Scalar { v: 0 }
    }

    pub fn one() -> (r: Scalar)
        ensures
            r.value() == 1,
    {
        Scalar { v: 1 }
    }

    /// Embed a machine integer into the field.
    pub fn from_u64(x: u64) -> (r: Scalar)
        ensures
            r.value() == fmod(x as int),
    {
        Scalar { v: x % FIELD_ORDER }
    }

    /// The canonical field encoding of a boolean: false is 0, true is 1.
    pub fn from_bool(b: bool) -> (r: Scalar)
        ensures
            r.value() == bool_to_field(b),
    {
        if b {
            Scalar::one()
        } else {
            Scalar::zero()
        }
    }

    pub fn add(self, rhs: Scalar) -> (r: Scalar)
        ensures
            r.value() == fadd(self.value(), rhs.value()),
    {
        proof {
            use_type_invariant(self);
            use_type_invariant(rhs);
            lemma_mod_bound(self.v + rhs.v, FIELD_ORDER as int);
        }
        let s: u64 = ((self.v as u128 + rhs.v as u128) % (FIELD_ORDER as u128)) as u64;
        Scalar { v: s }
    }

    pub fn sub(self, rhs: Scalar) -> (r: Scalar)
        ensures
            r.value() == fsub(self.value(), rhs.value()),
    {
        proof {
            use_type_invariant(self);
            use_type_invariant(rhs);
            lemma_mod_bound(self.v + FIELD_ORDER - rhs.v, FIELD_ORDER as int);
            lemma_mod_add_multiples_vanish(self.v - rhs.v, FIELD_ORDER as int);
        }
        let s: u64 = ((self.v as u128 + FIELD_ORDER as u128 - rhs.v as u128) % (FIELD_ORDER as u128))
            as u64;
        Scalar { v: s }
    }

    pub fn mul(self, rhs: Scalar) -> (r: Scalar)
        ensures
            r.value() == fmul(self.value(), rhs.value()),
    {
        proof {
            use_type_invariant(self);
            use_type_invariant(rhs);
            assert((self.v as int) * (rhs.v as int) <= (FIELD_ORDER as int) * (FIELD_ORDER
                as int)) by (nonlinear_arith)
                requires
                    0 <= self.v as int <= FIELD_ORDER as int,
                    0 <= rhs.v as int <= FIELD_ORDER as int,
            ;
            lemma_mod_bound(self.v * rhs.v, FIELD_ORDER as int);
        }
        let s: u64 = ((self.v as u128 * rhs.v as u128) % (FIELD_ORDER as u128)) as u64;
        Scalar { v: s }
    }

    pub fn neg(self) -> (r: Scalar)
        ensures
            r.value() == fsub(0, self.value()),
    {
        Scalar::zero().sub(self)
    }
}

/// Spec-level boolean embedding into the field.
pub open spec fn bool_to_field(b: bool) -> int {
    if b {
        1
    } else {
        0
    }
}

/// The field view of a boolean column.
pub open spec fn bools_as_field(s: Seq<bool>) -> Seq<int> {
    Seq::new(s.len(), |i: int| bool_to_field(s[i]))
}

/// The field view of a scalar column.
pub open spec fn values_of(s: Seq<Scalar>) -> Seq<int> {
    Seq::new(s.len(), |i: int| s[i].value())
}

/// Inner product of a column with a vector of challenge weights, reduced
/// into the field. This models the opening of a committed column at the
/// random evaluation point: the weights are the Lagrange basis values of
/// that point over the rows.
pub open spec fn inner_product(c: Seq<int>, w: Seq<int>) -> int
    recommends
        c.len() == w.len(),
    decreases c.len(),
{
    if c.len() == 0 {
        0
    } else {
        fadd(inner_product(c.drop_last(), w.drop_last()), fmul(c.last(), w.last()))
    }
}

/// A reduced representative is its own remainder.
pub proof fn lemma_fmod_small(a: int)
    requires
        in_field(a),
    ensures
        fmod(a) == a,
{
    lemma_small_mod(a as nat, FIELD_ORDER as nat);
}

/// Multiplying by a reduced representative of -1 negates in the field.
pub proof fn lemma_fmul_neg_one(a: int)
    ensures
        fmul(FIELD_ORDER as int - 1, a) == fsub(0, a),
{
    let m = FIELD_ORDER as int;
    assert((m - 1) * a == m * a - 1 * a) by {
        vstd::arithmetic::mul::lemma_mul_is_distributive_sub_other_way(a, m, 1);
    }
    assert((m * a + (0 - a)) % m == (0 - a) % m) by {
        vstd::arithmetic::div_mod::lemma_mod_multiples_vanish(a, 0 - a, m);
    }
}

/// Reducing the left factor first does not change a field product.
pub proof fn lemma_fmul_fmod_left(a: int, b: int)
    ensures
        fmul(fmod(a), b) == fmul(a, b),
{
    vstd::arithmetic::div_mod::lemma_mul_mod_noop_left(a, b, FIELD_ORDER as int);
}

/// Reducing the right summand first does not change a field sum.
pub proof fn lemma_fadd_fmod_right(a: int, b: int)
    ensures
        fadd(a, fmod(b)) == fadd(a, b),
{
    lemma_add_mod_noop_right(a, b, FIELD_ORDER as int);
}

/// The field encoding of conjunction is the field product of the encodings.
pub proof fn lemma_bool_and_is_fmul(l: bool, r: bool)
    ensures
        fmul(bool_to_field(l), bool_to_field(r)) == bool_to_field(l && r),
{
    lemma_small_mod(0, FIELD_ORDER as nat);
    lemma_small_mod(1, FIELD_ORDER as nat);
}

/// The exact arithmetic identity reproducing boolean disjunction over
/// field-encoded booleans: `l + r - (l && r)` encodes `l || r`.
pub proof fn lemma_bool_or_identity(l: bool, r: bool)
    ensures
        fsub(
            fadd(bool_to_field(l), bool_to_field(r)),
            bool_to_field(l && r),
        ) == bool_to_field(l || r),
{
    lemma_small_mod(0, FIELD_ORDER as nat);
    lemma_small_mod(1, FIELD_ORDER as nat);
    lemma_small_mod(2, FIELD_ORDER as nat);
}

/// An inner product is always a reduced field representative.
pub proof fn lemma_inner_product_in_field(c: Seq<int>, w: Seq<int>)
    ensures
        in_field(inner_product(c, w)),
    decreases c.len(),
{
    if c.len() == 0 {
    } else {
        lemma_mod_bound(
            inner_product(c.drop_last(), w.drop_last()) + fmul(c.last(), w.last()),
            FIELD_ORDER as int,
        );
    }
}

/// Opening a column at the challenge point is linear: if a column is the
/// pointwise combination `l + r - a` in the field, its opening is the same
/// combination of the three openings.
pub proof fn lemma_inner_product_linear(
    l: Seq<int>,
    r: Seq<int>,
    a: Seq<int>,
    o: Seq<int>,
    w: Seq<int>,
)
    requires
        l.len() == w.len(),
        r.len() == w.len(),
        a.len() == w.len(),
        o.len() == w.len(),
        forall|i: int| 0 <= i < w.len() ==> o[i] == fsub(fadd(l[i], r[i]), a[i]),
    ensures
        inner_product(o, w) == fsub(
            fadd(inner_product(l, w), inner_product(r, w)),
            inner_product(a, w),
        ),
    decreases w.len(),
{
    let m = FIELD_ORDER as int;
    if w.len() == 0 {
        assert(fsub(fadd(0, 0), 0) == 0) by {
            lemma_small_mod(0, FIELD_ORDER as nat);
        }
    } else {
        lemma_inner_product_linear(
            l.drop_last(),
            r.drop_last(),
            a.drop_last(),
            o.drop_last(),
            w.drop_last(),
        );
        let il = inner_product(l.drop_last(), w.drop_last());
        let ir = inner_product(r.drop_last(), w.drop_last());
        let ia = inner_product(a.drop_last(), w.drop_last());
        let ln = l.last();
        let rn = r.last();
        let an = a.last();
        let wn = w.last();
        lemma_collect_linear_step(il, ir, ia, ln, rn, an, wn);
    }
}

/// Changing one entry of a column shifts its opening by exactly the weighted
/// difference at that row.
pub proof fn lemma_inner_product_single_change(c1: Seq<int>, c2: Seq<int>, w: Seq<int>, j: int)
    requires
        c1.len() == w.len(),
        c2.len() == w.len(),
        0 <= j < w.len(),
        forall|i: int| 0 <= i < w.len() && i != j ==> c1[i] == c2[i],
    ensures
        inner_product(c2, w) == fadd(inner_product(c1, w), fmul(c2[j] - c1[j], w[j])),
    decreases w.len(),
{
    let m = FIELD_ORDER as int;
    if j == w.len() - 1 {
        assert(c1.drop_last() =~= c2.drop_last());
        let x = inner_product(c1.drop_last(), w.drop_last());
        let a = c1[j];
        let b = c2[j];
        let wj = w[j];
        assert(fadd(fadd(x, fmul(a, wj)), fmul(b - a, wj)) == fmod(x + a * wj + (b - a) * wj)) by {
            lemma_add_mod_noop_right(x, a * wj, m);
            vstd::arithmetic::div_mod::lemma_add_mod_noop(x + a * wj, (b - a) * wj, m);
            vstd::arithmetic::div_mod::lemma_mod_twice((b - a) * wj, m);
        }
        assert(a * wj + (b - a) * wj == b * wj) by {
            vstd::arithmetic::mul::lemma_mul_is_distributive_add_other_way(wj, a, b - a);
        }
        assert(fadd(x, fmul(b, wj)) == fmod(x + b * wj)) by {
            lemma_add_mod_noop_right(x, b * wj, m);
        }
    } else {
        lemma_inner_product_single_change(c1.drop_last(), c2.drop_last(), w.drop_last(), j);
        let x1 = inner_product(c1.drop_last(), w.drop_last());
        let cn = c1.last();
        let wn = w.last();
        let d = (c2[j] - c1[j]) * w[j];
        assert(c2.last() == cn);
        // both sides reduce to (x1 + cn * wn + d) % m
        assert(fadd(fadd(x1, fmod(d)), fmul(cn, wn)) == fmod(x1 + d + cn * wn)) by {
            lemma_add_mod_noop_right(x1, d, m);
            vstd::arithmetic::div_mod::lemma_add_mod_noop(x1 + d, cn * wn, m);
            vstd::arithmetic::div_mod::lemma_mod_twice(cn * wn, m);
        }
        assert(fadd(fadd(x1, fmul(cn, wn)), fmod(d)) == fmod(x1 + cn * wn + d)) by {
            lemma_add_mod_noop_right(x1, cn * wn, m);
            vstd::arithmetic::div_mod::lemma_add_mod_noop(x1 + cn * wn, d, m);
            vstd::arithmetic::div_mod::lemma_mod_twice(d, m);
        }
    }
}

/// Adding a nonzero reduced element moves every reduced element: the field
/// has no nonzero multiple of its order below it.
pub proof fn lemma_fadd_nonzero_changes(x: int, d: int)
    requires
        in_field(x),
        0 < d < FIELD_ORDER as int,
    ensures
        fadd(x, d) != x,
{
    let m = FIELD_ORDER as int;
    if x + d < m {
        lemma_small_mod((x + d) as nat, FIELD_ORDER as nat);
    } else {
        assert((m + (x + d - m)) % m == (x + d - m) % m) by {
            lemma_mod_add_multiples_vanish(x + d - m, m);
        }
        lemma_small_mod((x + d - m) as nat, FIELD_ORDER as nat);
    }
}

/// One induction step of `lemma_inner_product_linear`, stated over plain
/// integers: folding one more row into the three running openings commutes
/// with the pointwise combination.
pub proof fn lemma_collect_linear_step(
    il: int,
    ir: int,
    ia: int,
    ln: int,
    rn: int,
    an: int,
    wn: int,
)
    ensures
        fadd(fsub(fadd(il, ir), ia), fmul(fsub(fadd(ln, rn), an), wn)) == fsub(
            fadd(fadd(il, fmul(ln, wn)), fadd(ir, fmul(rn, wn))),
            fadd(ia, fmul(an, wn)),
        ),
{
    let m = FIELD_ORDER as int;
    // Both sides reduce to ((il + ir - ia) + (ln + rn - an) * wn) % m.
    assert(fmul(fsub(fadd(ln, rn), an), wn) == fmod((ln + rn - an) * wn)) by {
        vstd::arithmetic::div_mod::lemma_mul_mod_noop_left(ln + rn - an, wn, m);
    }
    assert(fadd(fsub(fadd(il, ir), ia), fmod((ln + rn - an) * wn)) == fmod(
        (il + ir - ia) + (ln + rn - an) * wn,
    )) by {
        vstd::arithmetic::div_mod::lemma_add_mod_noop(il + ir - ia, (ln + rn - an) * wn, m);
        vstd::arithmetic::div_mod::lemma_mod_twice((ln + rn - an) * wn, m);
    }
    assert(fadd(il, fmul(ln, wn)) == fmod(il + ln * wn)) by {
        lemma_add_mod_noop_right(il, ln * wn, m);
    }
    assert(fadd(ir, fmul(rn, wn)) == fmod(ir + rn * wn)) by {
        lemma_add_mod_noop_right(ir, rn * wn, m);
    }
    assert(fadd(ia, fmul(an, wn)) == fmod(ia + an * wn)) by {
        lemma_add_mod_noop_right(ia, an * wn, m);
    }
    assert(fadd(fmod(il + ln * wn), fmod(ir + rn * wn)) == fmod(
        (il + ln * wn) + (ir + rn * wn),
    )) by {
        vstd::arithmetic::div_mod::lemma_add_mod_noop(il + ln * wn, ir + rn * wn, m);
    }
    assert(fsub(fmod((il + ln * wn) + (ir + rn * wn)), fmod(ia + an * wn)) == fmod(
        ((il + ln * wn) + (ir + rn * wn)) - (ia + an * wn),
    )) by {
        vstd::arithmetic::div_mod::lemma_sub_mod_noop(
            (il + ln * wn) + (ir + rn * wn),
            ia + an * wn,
            m,
        );
    }
    assert((ln + rn - an) * wn == ln * wn + rn * wn - an * wn) by {
        vstd::arithmetic::mul::lemma_mul_is_distributive_sub_other_way(wn, ln + rn, an);
        vstd::arithmetic::mul::lemma_mul_is_distributive_add_other_way(wn, ln, rn);
    }
}

} // verus!
