//! The logical-OR gadget: the representative provable operator.
//!
//! Over boolean columns L and R the prover records one auxiliary column
//! `A[i] = L[i] && R[i]`, registers the degree-3 identity constraint
//! `A[i] - L[i] * R[i] == 0`, and returns `out[i] = L[i] || R[i]`, which the
//! exact arithmetic identity `out = L + R - A` reproduces in the field. The
//! verifier pops the claimed opening of A, folds the constraint evaluation
//! into the aggregate, and returns the claimed opening of the output.
use vstd::prelude::*;

verus! {

use crate::count_builder::CountBuilder;
use crate::error::ProofError;
use crate::proof_builder::{
    builder_wf,
    factors_opening,
    factors_value_at,
    mles_view,
    subpolynomial_holds,
    subpolynomial_wf,
    term_value_at,
    terms_opening,
    terms_value_at,
    ProofBuilder,
    SumcheckSubpolynomial,
    SumcheckSubpolynomialType,
    SumcheckTerm,
    MAX_SUMCHECK_DEGREE,
};
use crate::scalar::{
    bool_to_field,
    bools_as_field,
    fadd,
    fmod,
    fmul,
    fsub,
    inner_product,
    lemma_bool_and_is_fmul,
    lemma_bool_or_identity,
    lemma_fadd_fmod_right,
    lemma_fmod_small,
    lemma_fmul_fmod_left,
    lemma_fmul_neg_one,
    lemma_inner_product_in_field,
    values_of,
    Scalar,
    FIELD_ORDER,
};
use crate::verification_builder::{vbuilder_wf, VerificationBuilder};

/// Pointwise disjunction of two boolean columns.
pub open spec fn seq_or(l: Seq<bool>, r: Seq<bool>) -> Seq<bool> {
    Seq::new(l.len(), |i: int| l[i] || r[i])
}

/// Pointwise conjunction of two boolean columns.
pub open spec fn seq_and(l: Seq<bool>, r: Seq<bool>) -> Seq<bool> {
    Seq::new(l.len(), |i: int| l[i] && r[i])
}

/// Declares bumpalo's arena type so that it can stand in signatures; its
/// values are opaque to verification.
#[verifier::external_type_specification]
#[verifier::external_body]
pub struct ExBump<const MIN_ALIGN: usize>(bumpalo::Bump<MIN_ALIGN>);

/// Relies on bumpalo::Bump::new: a fresh arena for one evaluation pass.
#[verifier::external_body]
pub(crate) fn new_arena() -> bumpalo::Bump {
    bumpalo::Bump::new()
}

/// Relies on bumpalo::Bump::alloc_slice_copy: the returned arena-owned slice
/// holds exactly the elements of the source slice.
#[verifier::external_body]
fn alloc_bools<'a>(alloc: &'a bumpalo::Bump, src: &Vec<bool>) -> (r: &'a [bool])
    ensures
        r@ == src@,
{
    alloc.alloc_slice_copy(src.as_slice())
}

/// Pointwise disjunction, materialized.
fn compute_or(lhs: &[bool], rhs: &[bool]) -> (r: Vec<bool>)
    requires
        lhs@.len() == rhs@.len(),
    ensures
        r@ == seq_or(lhs@, rhs@),
{
    let n = lhs.len();
    let mut out: Vec<bool> = Vec::new();
    let mut i: usize = 0;
    while i < n
        invariant
            i <= n,
            n == lhs@.len(),
            n == rhs@.len(),
            out@.len() == i,
            forall|j: int| 0 <= j < i ==> out@[j] == (lhs@[j] || rhs@[j]),
        decreases n - i,
    {
        let b = *vstd::slice::slice_index_get(lhs, i) || *vstd::slice::slice_index_get(rhs, i);
        out.push(b);
        i = i + 1;
    }
    proof {
        assert(out@ =~= seq_or(lhs@, rhs@));
    }
    out
}

/// Pointwise conjunction, materialized.
fn compute_and(lhs: &[bool], rhs: &[bool]) -> (r: Vec<bool>)
    requires
        lhs@.len() == rhs@.len(),
    ensures
        r@ == seq_and(lhs@, rhs@),
{
    let n = lhs.len();
    let mut out: Vec<bool> = Vec::new();
    let mut i: usize = 0;
    while i < n
        invariant
            i <= n,
            n == lhs@.len(),
            n == rhs@.len(),
            out@.len() == i,
            forall|j: int| 0 <= j < i ==> out@[j] == (lhs@[j] && rhs@[j]),
        decreases n - i,
    {
        let b = *vstd::slice::slice_index_get(lhs, i) && *vstd::slice::slice_index_get(rhs, i);
        out.push(b);
        i = i + 1;
    }
    proof {
        assert(out@ =~= seq_and(lhs@, rhs@));
    }
    out
}

/// Compute the plain OR result column for the user-visible output; no proof
/// side effects.
pub fn result_evaluate_or<'a>(
    table_length: usize,
    alloc: &'a bumpalo::Bump,
    lhs: &[bool],
    rhs: &[bool],
) -> (r: &'a [bool])
    requires
        lhs@.len() == table_length,
        rhs@.len() == table_length,
    ensures
        r@ == seq_or(lhs@, rhs@),
{
    let out = compute_or(lhs, rhs);
    alloc_bools(alloc, &out)
}

/// The shape of the one constraint the OR gadget registers: the recorded
/// conjunction column minus the product of the operands, claimed to vanish
/// at every row.
pub open spec fn is_or_subpolynomial(p: SumcheckSubpolynomial, l: Seq<bool>, r: Seq<bool>) -> bool {
    &&& p.kind == SumcheckSubpolynomialType::Identity
    &&& p.terms@.len() == 2
    &&& p.terms@[0].coefficient.value() == 1
    &&& p.terms@[0].factors@.len() == 1
    &&& values_of(p.terms@[0].factors@[0]@) == bools_as_field(seq_and(l, r))
    &&& p.terms@[1].coefficient.value() == fsub(0, 1)
    &&& p.terms@[1].factors@.len() == 2
    &&& values_of(p.terms@[1].factors@[0]@) == bools_as_field(l)
    &&& values_of(p.terms@[1].factors@[1]@) == bools_as_field(r)
}

/// Compute the OR result column while recording the auxiliary conjunction
/// column and the one identity constraint that proves it; output-identical
/// to `result_evaluate_or` on the same operands.
pub fn prover_evaluate_or<'a>(
    builder: &mut ProofBuilder,
    alloc: &'a bumpalo::Bump,
    lhs: &'a [bool],
    rhs: &'a [bool],
) -> (r: &'a [bool])
    requires
        builder_wf(*old(builder)),
        lhs@.len() == old(builder).table_length as int,
        rhs@.len() == old(builder).table_length as int,
    ensures
        builder_wf(*final(builder)),
        final(builder).table_length == old(builder).table_length,
        r@ == seq_or(lhs@, rhs@),
        mles_view(*final(builder)) == mles_view(*old(builder)).push(
            bools_as_field(seq_and(lhs@, rhs@)),
        ),
        final(builder).mles@.len() == old(builder).mles@.len() + 1,
        final(builder).subpolynomials@.len() == old(builder).subpolynomials@.len() + 1,
        final(builder).subpolynomials@.subrange(0, old(builder).subpolynomials@.len() as int)
            == old(builder).subpolynomials@,
        is_or_subpolynomial(final(builder).subpolynomials@.last(), lhs@, rhs@),
{
    let ghost old_subs = builder.subpolynomials@;
    let lhs_and_rhs_vec = compute_and(lhs, rhs);
    let lhs_and_rhs: &[bool] = alloc_bools(alloc, &lhs_and_rhs_vec);
    builder.produce_intermediate_mle(lhs_and_rhs);

    // subpolynomial: lhs_and_rhs - lhs * rhs
    let mut and_factors: Vec<Vec<Scalar>> = Vec::new();
    and_factors.push(crate::proof_builder::bools_to_scalars(lhs_and_rhs));
    let mut product_factors: Vec<Vec<Scalar>> = Vec::new();
    product_factors.push(crate::proof_builder::bools_to_scalars(lhs));
    product_factors.push(crate::proof_builder::bools_to_scalars(rhs));
    let mut terms: Vec<SumcheckTerm> = Vec::new();
    terms.push(SumcheckTerm { coefficient: Scalar::one(), factors: and_factors });
    terms.push(SumcheckTerm { coefficient: Scalar::one().neg(), factors: product_factors });
    builder.produce_sumcheck_subpolynomial(SumcheckSubpolynomialType::Identity, terms);
    proof {
        assert(builder.subpolynomials@.subrange(0, old_subs.len() as int) =~= old_subs);
    }

    // selection
    let out = compute_or(lhs, rhs);
    alloc_bools(alloc, &out)
}

/// Replay the OR gadget on the verifier side: pop the claimed opening of the
/// conjunction column, fold the constraint evaluation
/// `random_evaluation * (claimed_and - lhs * rhs)` into the aggregate, and
/// return the claimed opening `lhs + rhs - claimed_and` of the output.
/// Fails with a shape mismatch exactly when a queue runs out.
pub fn verifier_evaluate_or(builder: &mut VerificationBuilder, lhs: &Scalar, rhs: &Scalar) -> (r:
    Result<Scalar, ProofError>)
    requires
        vbuilder_wf(*old(builder)),
    ensures
        vbuilder_wf(*final(builder)),
        final(builder).claimed_intermediate_mles == old(builder).claimed_intermediate_mles,
        final(builder).subpolynomial_multipliers == old(builder).subpolynomial_multipliers,
        final(builder).mle_evaluations == old(builder).mle_evaluations,
        old(builder).consumed_intermediate_mles < old(builder).claimed_intermediate_mles@.len()
            && old(builder).produced_subpolynomials < old(
            builder,
        ).subpolynomial_multipliers@.len() ==> {
            let claimed_and = old(builder).claimed_intermediate_mles@[
                old(builder).consumed_intermediate_mles as int
            ].value();
            &&& r is Ok
            &&& r->Ok_0.value() == fsub(fadd(lhs.value(), rhs.value()), claimed_and)
            &&& final(builder).consumed_intermediate_mles == old(
                builder,
            ).consumed_intermediate_mles + 1
            &&& final(builder).produced_subpolynomials == old(builder).produced_subpolynomials + 1
            &&& final(builder).sumcheck_evaluation.value() == fadd(
                old(builder).sumcheck_evaluation.value(),
                fmul(
                    old(builder).subpolynomial_multipliers@[
                        old(builder).produced_subpolynomials as int
                    ].value(),
                    fmul(
                        old(builder).mle_evaluations.random_evaluation.value(),
                        fsub(claimed_and, fmul(lhs.value(), rhs.value())),
                    ),
                ),
            )
        },
        old(builder).consumed_intermediate_mles >= old(
            builder,
        ).claimed_intermediate_mles@.len() ==> {
            &&& r == Err::<Scalar, ProofError>(ProofError::ShapeMismatch)
            &&& *final(builder) == *old(builder)
        },
        old(builder).consumed_intermediate_mles < old(builder).claimed_intermediate_mles@.len()
            && old(builder).produced_subpolynomials >= old(
            builder,
        ).subpolynomial_multipliers@.len() ==> {
            &&& r == Err::<Scalar, ProofError>(ProofError::ShapeMismatch)
            &&& final(builder).consumed_intermediate_mles == old(
                builder,
            ).consumed_intermediate_mles + 1
            &&& final(builder).produced_subpolynomials == old(builder).produced_subpolynomials
            &&& final(builder).sumcheck_evaluation == old(builder).sumcheck_evaluation
        },
{
    // lhs_and_rhs
    let lhs_and_rhs = match builder.consume_intermediate_mle() {
        Ok(v) => v,
        Err(e) => {
            return Err(e);
        },
    };

    // subpolynomial: lhs_and_rhs - lhs * rhs
    let eval = builder.mle_evaluations.random_evaluation.mul(
        lhs_and_rhs.sub(lhs.mul(*rhs)),
    );
    match builder.produce_sumcheck_subpolynomial_evaluation(&eval) {
        Ok(u) => u,
        Err(e) => {
            return Err(e);
        },
    };

    // selection
    Ok(lhs.add(*rhs).sub(lhs_and_rhs))
}

/// The OR gadget's contribution to the proof shape: one constraint, one
/// auxiliary column, and a constraint-degree candidate of three.
pub fn count_or(builder: &mut CountBuilder)
    requires
        old(builder).subpolynomials_count() + 1 <= usize::MAX,
        old(builder).intermediate_mles_count() + 1 <= usize::MAX,
    ensures
        final(builder).subpolynomials_count() == old(builder).subpolynomials_count() + 1,
        final(builder).intermediate_mles_count() == old(builder).intermediate_mles_count() + 1,
        final(builder).max_degree() == if MAX_SUMCHECK_DEGREE as int > old(builder).max_degree() {
            MAX_SUMCHECK_DEGREE as int
        } else {
            old(builder).max_degree()
        },
{
    builder.count_subpolynomials(1);
    builder.count_intermediate_mles(1);
    builder.count_degree(MAX_SUMCHECK_DEGREE);
}

/// The OR constraint holds at every row: with `A = L && R` recorded honestly,
/// `A[i] - L[i] * R[i]` vanishes in the field.
pub proof fn lemma_or_subpolynomial_holds(
    p: SumcheckSubpolynomial,
    l: Seq<bool>,
    r: Seq<bool>,
    n: int,
)
    requires
        is_or_subpolynomial(p, l, r),
        l.len() == n,
        r.len() == n,
    ensures
        subpolynomial_holds(p, n),
{
    assert forall|i: int| 0 <= i < n implies terms_value_at(p.terms@, i) == 0 by {
        let ts = p.terms@;
        let a_i = bool_to_field(l[i] && r[i]);
        assert(ts.drop_last().drop_last() =~= Seq::<SumcheckTerm>::empty());
        assert(ts.drop_last().last() == ts[0]);
        let fs0 = ts[0].factors@;
        let fs1 = ts[1].factors@;
        assert(fs0.drop_last() =~= Seq::<Vec<Scalar>>::empty());
        assert(fs1.drop_last().drop_last() =~= Seq::<Vec<Scalar>>::empty());
        assert(fs1.drop_last().last() == fs1[0]);
        // factor columns read back their recorded boolean encodings
        assert(fs0[0]@[i].value() == a_i) by {
            assert(values_of(fs0[0]@).len() == fs0[0]@.len());
            assert(0 <= i < fs0[0]@.len());
            assert(values_of(fs0[0]@)[i] == fs0[0]@[i].value());
            assert(bools_as_field(seq_and(l, r))[i] == a_i);
        }
        assert(fs1[0]@[i].value() == bool_to_field(l[i])) by {
            assert(values_of(fs1[0]@).len() == fs1[0]@.len());
            assert(0 <= i < fs1[0]@.len());
            assert(values_of(fs1[0]@)[i] == fs1[0]@[i].value());
            assert(bools_as_field(l)[i] == bool_to_field(l[i]));
        }
        assert(fs1[1]@[i].value() == bool_to_field(r[i])) by {
            assert(values_of(fs1[1]@).len() == fs1[1]@.len());
            assert(0 <= i < fs1[1]@.len());
            assert(values_of(fs1[1]@)[i] == fs1[1]@[i].value());
            assert(bools_as_field(r)[i] == bool_to_field(r[i]));
        }
        let l_i = bool_to_field(l[i]);
        let r_i = bool_to_field(r[i]);
        // first term evaluates to A[i]
        assert(factors_value_at(Seq::<Vec<Scalar>>::empty(), i) == 1);
        assert(factors_value_at(fs0.drop_last(), i) == 1);
        assert(factors_value_at(fs0, i) == fmul(1, a_i));
        lemma_fmod_small(a_i);
        assert(fmul(1, a_i) == a_i);
        assert(term_value_at(ts[0], i) == fmul(1, a_i));
        assert(term_value_at(ts[0], i) == a_i);
        // second term evaluates to -(L[i] * R[i]) == -A[i]
        assert(factors_value_at(fs1.drop_last().drop_last(), i) == 1);
        assert(factors_value_at(fs1.drop_last(), i) == fmul(1, l_i));
        lemma_fmod_small(l_i);
        assert(fmul(1, l_i) == l_i);
        assert(factors_value_at(fs1, i) == fmul(l_i, r_i));
        lemma_bool_and_is_fmul(l[i], r[i]);
        assert(factors_value_at(fs1, i) == a_i);
        assert(term_value_at(ts[1], i) == fmul(fsub(0, 1), a_i));
        assert(fsub(0, 1) == FIELD_ORDER as int - 1) by {
            lemma_fmod_small(FIELD_ORDER as int - 1);
        }
        lemma_fmul_neg_one(a_i);
        assert(term_value_at(ts[1], i) == fsub(0, a_i));
        // the two terms cancel
        assert(terms_value_at(Seq::<SumcheckTerm>::empty(), i) == 0);
        assert(terms_value_at(ts.drop_last(), i) == fadd(0, a_i));
        lemma_fadd_fmod_right(0, a_i);
        lemma_fmod_small(a_i);
        assert(fadd(0, a_i) == a_i);
        assert(terms_value_at(ts, i) == fadd(a_i, fsub(0, a_i)));
        lemma_fadd_fmod_right(a_i, 0 - a_i);
        assert(fadd(a_i, fsub(0, a_i)) == fmod(a_i + (0 - a_i)));
        lemma_fmod_small(0);
    }
}

/// The opening of the OR constraint at the challenge point, reconstructed
/// from the openings of its factor columns, is exactly what the verifier
/// folds: `open(A) - open(L) * open(R)`.
pub proof fn lemma_or_subpolynomial_opening(
    p: SumcheckSubpolynomial,
    l: Seq<bool>,
    r: Seq<bool>,
    w: Seq<int>,
)
    requires
        is_or_subpolynomial(p, l, r),
    ensures
        terms_opening(p.terms@, w) == fsub(
            inner_product(bools_as_field(seq_and(l, r)), w),
            fmul(inner_product(bools_as_field(l), w), inner_product(bools_as_field(r), w)),
        ),
{
    let ts = p.terms@;
    let ip_a = inner_product(bools_as_field(seq_and(l, r)), w);
    let ip_l = inner_product(bools_as_field(l), w);
    let ip_r = inner_product(bools_as_field(r), w);
    lemma_inner_product_in_field(bools_as_field(seq_and(l, r)), w);
    lemma_inner_product_in_field(bools_as_field(l), w);
    lemma_inner_product_in_field(bools_as_field(r), w);
    assert(ts.drop_last().drop_last() =~= Seq::<SumcheckTerm>::empty());
    assert(ts.drop_last().last() == ts[0]);
    assert(ts.last() == ts[1]);
    let fs0 = ts[0].factors@;
    let fs1 = ts[1].factors@;
    assert(fs0.drop_last() =~= Seq::<Vec<Scalar>>::empty());
    assert(fs0.last() == fs0[0]);
    assert(fs1.drop_last().drop_last() =~= Seq::<Vec<Scalar>>::empty());
    assert(fs1.drop_last().last() == fs1[0]);
    assert(fs1.last() == fs1[1]);
    assert(values_of(fs0[0]@) == bools_as_field(seq_and(l, r)));
    assert(values_of(fs1[0]@) == bools_as_field(l));
    assert(values_of(fs1[1]@) == bools_as_field(r));
    // openings of the factor products
    assert(factors_opening(Seq::<Vec<Scalar>>::empty(), w) == 1);
    assert(factors_opening(fs0.drop_last(), w) == 1);
    assert(factors_opening(fs1.drop_last().drop_last(), w) == 1);
    assert(factors_opening(fs1.drop_last(), w) == fmul(1, ip_l));
    assert(factors_opening(fs0, w) == fmul(1, ip_a));
    lemma_fmul_fmod_left(1, ip_a);
    lemma_fmod_small(ip_a);
    assert(factors_opening(fs0, w) == ip_a);
    assert(factors_opening(fs1, w) == fmul(fmul(1, ip_l), ip_r));
    lemma_fmul_fmod_left(1, ip_l);
    lemma_fmod_small(ip_l);
    lemma_fmul_fmod_left(ip_l, ip_r);
    assert(factors_opening(fs1, w) == fmul(ip_l, ip_r));
    // weighted sum of the two term openings
    assert(terms_opening(Seq::<SumcheckTerm>::empty(), w) == 0);
    assert(terms_opening(ts.drop_last(), w) == fadd(0, fmul(1, ip_a)));
    assert(terms_opening(ts, w) == fadd(
        terms_opening(ts.drop_last(), w),
        fmul(fsub(0, 1), fmul(ip_l, ip_r)),
    ));
    assert(terms_opening(ts, w) == fadd(
        fadd(0, fmul(1, ip_a)),
        fmul(fsub(0, 1), fmul(ip_l, ip_r)),
    ));
    lemma_fmul_fmod_left(1, ip_a);
    lemma_fadd_fmod_right(0, ip_a);
    assert(fadd(0, fmod(ip_a)) == fmod(ip_a));
    assert(fsub(0, 1) == FIELD_ORDER as int - 1) by {
        lemma_fmod_small(FIELD_ORDER as int - 1);
    }
    lemma_fmul_neg_one(fmul(ip_l, ip_r));
    assert(terms_opening(ts, w) == fadd(ip_a, fsub(0, fmul(ip_l, ip_r))));
    lemma_fadd_fmod_right(ip_a, 0 - fmul(ip_l, ip_r));
}

} // verus!
