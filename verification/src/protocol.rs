//! The complete OR query protocol, prover and verifier ends.
//!
//! The prover runs the counting and proving passes, opens every recorded
//! auxiliary column at the challenge point, and computes the constraint
//! aggregate the external sumcheck engine will certify. The verifier replays
//! the same gadget over the claimed openings alone and accepts exactly when
//! its recomputed aggregate matches the certified one and the tree root's
//! claimed opening equals the independently known committed-result opening.
//! The challenge itself (the row weights, the random row-selector opening
//! and the per-constraint multipliers) is produced externally by a
//! Fiat-Shamir transform after the commitments are fixed.
use vstd::prelude::*;

verus! {

use crate::count_builder::CountBuilder;
use crate::error::ProofError;
use crate::or_expr::{
    count_or,
    new_arena,
    prover_evaluate_or,
    seq_and,
    seq_or,
    verifier_evaluate_or,
};
use crate::proof_builder::{bools_to_scalars, mles_view, ProofBuilder};
use crate::scalar::{
    bools_as_field,
    fadd,
    fmod,
    fmul,
    fsub,
    inner_product,
    lemma_bool_or_identity,
    lemma_fadd_nonzero_changes,
    lemma_fmod_small,
    lemma_inner_product_in_field,
    lemma_inner_product_linear,
    lemma_inner_product_single_change,
    values_of,
    Scalar,
    FIELD_ORDER,
};
use crate::verification_builder::VerificationBuilder;

/// The transmissible artifact of one OR proof: the claimed output column,
/// the claimed openings of the auxiliary columns in production order, and
/// the constraint aggregate as the external sumcheck engine certifies it.
pub struct OrProof {
    pub output: Vec<bool>,
    pub claimed_mles: Vec<Scalar>,
    pub claimed_sumcheck_evaluation: Scalar,
}

/// Open a committed column at the challenge point: the inner product of the
/// column with the challenge's row weights.
pub fn evaluate_mle(column: &Vec<Scalar>, w: &Vec<Scalar>) -> (r: Scalar)
    requires
        column@.len() == w@.len(),
    ensures
        r.value() == inner_product(values_of(column@), values_of(w@)),
{
    let n = column.len();
    let mut acc = Scalar::zero();
    let mut i: usize = 0;
    proof {
        assert(values_of(column@).take(0) =~= Seq::<int>::empty());
        assert(values_of(w@).take(0) =~= Seq::<int>::empty());
    }
    while i < n
        invariant
            i <= n,
            n == column@.len(),
            n == w@.len(),
            acc.value() == inner_product(
                values_of(column@).take(i as int),
                values_of(w@).take(i as int),
            ),
        decreases n - i,
    {
        acc = acc.add(column[i].mul(w[i]));
        proof {
            let cv = values_of(column@);
            let wv = values_of(w@);
            assert(cv.take(i + 1).drop_last() =~= cv.take(i as int));
            assert(wv.take(i + 1).drop_last() =~= wv.take(i as int));
            assert(cv.take(i + 1).last() == cv[i as int]);
            assert(wv.take(i + 1).last() == wv[i as int]);
            assert(cv[i as int] == column@[i as int].value());
            assert(wv[i as int] == w@[i as int].value());
        }
        i = i + 1;
    }
    proof {
        assert(values_of(column@).take(n as int) =~= values_of(column@));
        assert(values_of(w@).take(n as int) =~= values_of(w@));
    }
    acc
}

/// An owned copy of a boolean column.
fn bools_to_vec(s: &[bool]) -> (r: Vec<bool>)
    ensures
        r@ == s@,
{
    let n = s.len();
    let mut out: Vec<bool> = Vec::new();
    let mut i: usize = 0;
    while i < n
        invariant
            i <= n,
            n == s@.len(),
            out@ == s@.take(i as int),
        decreases n - i,
    {
        out.push(*vstd::slice::slice_index_get(s, i));
        proof {
            assert(s@.take(i as int).push(s@[i as int]) =~= s@.take(i + 1));
        }
        i = i + 1;
    }
    proof {
        assert(s@.take(n as int) =~= s@);
    }
    out
}

/// Run the counting and proving passes over the OR gadget and assemble the
/// proof artifact. Operand or weight columns of unequal lengths are rejected
/// before any cryptographic work, as is a challenge whose multiplier count
/// disagrees with the predicted constraint count.
pub fn prove_or(
    lhs: &Vec<bool>,
    rhs: &Vec<bool>,
    w: &Vec<Scalar>,
    random_evaluation: &Scalar,
    multipliers: &Vec<Scalar>,
) -> (r: Result<OrProof, ProofError>)
    ensures
        (lhs@.len() != rhs@.len() || w@.len() != lhs@.len()) ==> r == Err::<
            OrProof,
            ProofError,
        >(ProofError::LengthMismatch),
        lhs@.len() == rhs@.len() && w@.len() == lhs@.len() && multipliers@.len() != 1 ==> r == Err::<
            OrProof,
            ProofError,
        >(ProofError::ShapeMismatch),
        lhs@.len() == rhs@.len() && w@.len() == lhs@.len() && multipliers@.len() == 1 ==> {
            let wv = values_of(w@);
            let ip_a = inner_product(bools_as_field(seq_and(lhs@, rhs@)), wv);
            let ip_l = inner_product(bools_as_field(lhs@), wv);
            let ip_r = inner_product(bools_as_field(rhs@), wv);
            &&& r is Ok
            &&& r->Ok_0.output@ == seq_or(lhs@, rhs@)
            &&& r->Ok_0.claimed_mles@.len() == 1
            &&& r->Ok_0.claimed_mles@[0].value() == ip_a
            &&& r->Ok_0.claimed_sumcheck_evaluation.value() == fadd(
                0,
                fmul(
                    multipliers@[0].value(),
                    fmul(random_evaluation.value(), fsub(ip_a, fmul(ip_l, ip_r))),
                ),
            )
        },
{
    let n = lhs.len();
    if rhs.len() != n || w.len() != n {
        return Err(ProofError::LengthMismatch);
    }
    // counting pass: predict the proof shape before any evaluation
    let mut counts = CountBuilder::new();
    count_or(&mut counts);
    if multipliers.len() != counts.subpolynomials() {
        return Err(ProofError::ShapeMismatch);
    }

    // proving pass
    let mut builder = ProofBuilder::new(n);
    let alloc = new_arena();
    let out = prover_evaluate_or(&mut builder, &alloc, lhs.as_slice(), rhs.as_slice());
    let output = bools_to_vec(out);

    // open every auxiliary column at the challenge point
    proof {
        assert(mles_view(builder)[0] == bools_as_field(seq_and(lhs@, rhs@)));
        assert(values_of(builder.mles@[0]@) == bools_as_field(seq_and(lhs@, rhs@)));
    }
    let claimed_and = evaluate_mle(&builder.mles[0], w);
    let mut claimed_mles: Vec<Scalar> = Vec::new();
    claimed_mles.push(claimed_and);

    // the aggregate the external sumcheck engine certifies: the opening of
    // the one registered constraint, scaled by the random row-selector
    // opening and the constraint's multiplier
    let lhs_eval = evaluate_mle(&bools_to_scalars(lhs.as_slice()), w);
    let rhs_eval = evaluate_mle(&bools_to_scalars(rhs.as_slice()), w);
    let folded = multipliers[0].mul(
        random_evaluation.mul(claimed_and.sub(lhs_eval.mul(rhs_eval))),
    );
    let claimed_sumcheck_evaluation = Scalar::zero().add(folded);

    Ok(OrProof { output, claimed_mles, claimed_sumcheck_evaluation })
}

/// Check one OR proof against the openings of its operand columns and the
/// independently known opening of the committed result column. Accepts
/// exactly when the proof has the predicted shape, the recomputed constraint
/// aggregate equals the engine-certified one, and the tree root's claimed
/// opening equals the committed result's.
pub fn verify_or(
    proof: OrProof,
    lhs_eval: &Scalar,
    rhs_eval: &Scalar,
    result_eval: &Scalar,
    random_evaluation: &Scalar,
    multipliers: Vec<Scalar>,
) -> (r: Result<(), ProofError>)
    ensures
        ({
            let shape_ok = proof.claimed_mles@.len() == 1 && multipliers@.len() == 1;
            let claimed_and = proof.claimed_mles@[0].value();
            let agg = fadd(
                0,
                fmul(
                    multipliers@[0].value(),
                    fmul(
                        random_evaluation.value(),
                        fsub(claimed_and, fmul(lhs_eval.value(), rhs_eval.value())),
                    ),
                ),
            );
            let root = fsub(fadd(lhs_eval.value(), rhs_eval.value()), claimed_and);
            &&& !shape_ok ==> r == Err::<(), ProofError>(ProofError::ShapeMismatch)
            &&& shape_ok && agg != proof.claimed_sumcheck_evaluation.value() ==> r == Err::<
                (),
                ProofError,
            >(ProofError::VerificationError)
            &&& shape_ok && agg == proof.claimed_sumcheck_evaluation.value() && root
                != result_eval.value() ==> r == Err::<(), ProofError>(ProofError::VerificationError)
            &&& shape_ok && agg == proof.claimed_sumcheck_evaluation.value() && root
                == result_eval.value() ==> r == Ok::<(), ProofError>(())
        }),
{
    // counting pass: the predicted shape the artifact must match
    let mut counts = CountBuilder::new();
    count_or(&mut counts);
    let OrProof { output: _output, claimed_mles, claimed_sumcheck_evaluation } = proof;
    if claimed_mles.len() != counts.intermediate_mles() {
        return Err(ProofError::ShapeMismatch);
    }
    if multipliers.len() != counts.subpolynomials() {
        return Err(ProofError::ShapeMismatch);
    }

    // verifying pass
    let mut builder = VerificationBuilder::new(*random_evaluation, claimed_mles, multipliers);
    let root = match verifier_evaluate_or(&mut builder, lhs_eval, rhs_eval) {
        Ok(v) => v,
        Err(e) => {
            return Err(e);
        },
    };

    // the aggregate must equal what the external sumcheck engine certified
    let recomputed = builder.sumcheck_evaluation;
    proof {
        recomputed.lemma_eq_value(claimed_sumcheck_evaluation);
    }
    if !(recomputed == claimed_sumcheck_evaluation) {
        return Err(ProofError::VerificationError);
    }

    // the root's claimed opening must equal the committed result's opening
    proof {
        root.lemma_eq_value(*result_eval);
    }
    if !(root == *result_eval) {
        return Err(ProofError::VerificationError);
    }
    Ok(())
}

/// Completeness of the OR protocol's result check: the opening of the honest
/// OR output column is exactly the root opening the verifier reconstructs,
/// `open(L) + open(R) - open(L && R)`, for every challenge. Together with the
/// definitionally equal aggregates of an honest run, an honestly produced
/// proof verifies against the honest openings.
pub proof fn lemma_or_completeness(l: Seq<bool>, r: Seq<bool>, w: Seq<int>)
    requires
        l.len() == r.len(),
    ensures
        fsub(
            fadd(inner_product(bools_as_field(l), w), inner_product(bools_as_field(r), w)),
            inner_product(bools_as_field(seq_and(l, r)), w),
        ) == inner_product(bools_as_field(seq_or(l, r)), w),
{
    let fl = bools_as_field(l);
    let fr = bools_as_field(r);
    let fa = bools_as_field(seq_and(l, r));
    let fo = bools_as_field(seq_or(l, r));
    assert forall|i: int| 0 <= i < fo.len() implies fo[i] == fsub(fadd(fl[i], fr[i]), fa[i]) by {
        lemma_bool_or_identity(l[i], r[i]);
    }
    if w.len() == l.len() {
        lemma_inner_product_linear(fl, fr, fa, fo, w);
    } else {
        lemma_inner_product_mismatched(fl, fr, fa, fo, w);
    }
}

/// The same linearity, for weight vectors of any length: the inner product
/// only ever reads the shorter prefix.
proof fn lemma_inner_product_mismatched(
    l: Seq<int>,
    r: Seq<int>,
    a: Seq<int>,
    o: Seq<int>,
    w: Seq<int>,
)
    requires
        l.len() == o.len(),
        r.len() == o.len(),
        a.len() == o.len(),
        forall|i: int| 0 <= i < o.len() ==> o[i] == fsub(fadd(l[i], r[i]), a[i]),
    ensures
        fsub(fadd(inner_product(l, w), inner_product(r, w)), inner_product(a, w)) == inner_product(
            o,
            w,
        ),
    decreases o.len(),
{
    if o.len() == 0 {
        lemma_fmod_small(0);
    } else {
        lemma_inner_product_mismatched(
            l.drop_last(),
            r.drop_last(),
            a.drop_last(),
            o.drop_last(),
            w.drop_last(),
        );
        crate::scalar::lemma_collect_linear_step(
            inner_product(l.drop_last(), w.drop_last()),
            inner_product(r.drop_last(), w.drop_last()),
            inner_product(a.drop_last(), w.drop_last()),
            l.last(),
            r.last(),
            a.last(),
            w.last(),
        );
    }
}

/// Rejection of a flipped output: a claimed output column that differs from
/// the honest OR at one row whose challenge weight is a nonzero reduced
/// field element opens to a different value than the root opening the
/// verifier reconstructs, so the final result equality rejects it. A weight
/// that is zero at the flipped row cannot see the flip: such challenges are
/// excluded here; drawing the challenge at random after the commitments are
/// fixed makes them negligible.
pub proof fn lemma_flipped_output_rejected(
    l: Seq<bool>,
    r: Seq<bool>,
    claimed: Seq<bool>,
    w: Seq<int>,
    j: int,
)
    requires
        l.len() == r.len(),
        claimed.len() == l.len(),
        w.len() == l.len(),
        0 <= j < l.len(),
        forall|i: int| 0 <= i < l.len() && i != j ==> claimed[i] == seq_or(l, r)[i],
        claimed[j] != seq_or(l, r)[j],
        0 < w[j] < FIELD_ORDER as int,
    ensures
        inner_product(bools_as_field(claimed), w) != fsub(
            fadd(inner_product(bools_as_field(l), w), inner_product(bools_as_field(r), w)),
            inner_product(bools_as_field(seq_and(l, r)), w),
        ),
{
    let m = FIELD_ORDER as int;
    lemma_or_completeness(l, r, w);
    let o = bools_as_field(seq_or(l, r));
    let c = bools_as_field(claimed);
    lemma_inner_product_single_change(o, c, w, j);
    let x = inner_product(o, w);
    lemma_inner_product_in_field(o, w);
    let d = c[j] - o[j];
    // the flip moves the opening by exactly +-w[j], a nonzero reduced element
    if d == 1 {
        assert(fmul(d, w[j]) == w[j]) by {
            lemma_fmod_small(w[j]);
        }
        lemma_fadd_nonzero_changes(x, w[j]);
    } else {
        assert(d == -1);
        assert(d * w[j] == 0 - w[j]) by {
            vstd::arithmetic::mul::lemma_mul_is_distributive_sub_other_way(w[j], 0, 1);
        }
        assert(fmul(d, w[j]) == fmod(0 - w[j]));
        assert(fmod(0 - w[j]) == m - w[j]) by {
            vstd::arithmetic::div_mod::lemma_mod_add_multiples_vanish(0 - w[j], m);
            lemma_fmod_small(m - w[j]);
        }
        lemma_fadd_nonzero_changes(x, m - w[j]);
    }
}

/// The plain-result pass and the prover pass are output-identical: any two
/// output columns that meet their contracts on the same operands are equal;
/// only builder-visible side effects distinguish the passes.
pub proof fn lemma_result_prover_agree(
    l: Seq<bool>,
    r: Seq<bool>,
    result_output: Seq<bool>,
    prover_output: Seq<bool>,
)
    requires
        result_output == seq_or(l, r),
        prover_output == seq_or(l, r),
    ensures
        result_output == prover_output,
{
}

} // verus!
