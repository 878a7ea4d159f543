//! The verifier-side accumulator.
//!
//! The verifier holds the prover-claimed auxiliary evaluations and a random
//! multiplier per constraint, both taken from the transmitted proof and the
//! challenge. Walking the same tree in the same order, it pops one claimed
//! evaluation per auxiliary column and folds one constraint evaluation per
//! constraint into a single running aggregate; no constraint is ever checked
//! in isolation. A queue that runs out early is a shape mismatch: the prover
//! under-supplied artifacts relative to the predicted count.
use vstd::prelude::*;

verus! {

use crate::error::ProofError;
use crate::scalar::{fadd, fmul, Scalar};

/// The evaluations of protocol-level columns at the random challenge point.
pub struct SumcheckMleEvaluations {
    /// The opening of the random row-selector column: every folded
    /// constraint evaluation is scaled by it.
    pub random_evaluation: Scalar,
}

/// Verifier-side state for one proof.
pub struct VerificationBuilder {
    pub mle_evaluations: SumcheckMleEvaluations,
    /// Prover-claimed openings of the intermediate auxiliary columns, in the
    /// order the prover produced them.
    pub claimed_intermediate_mles: Vec<Scalar>,
    /// How many claimed openings have been consumed so far.
    pub consumed_intermediate_mles: usize,
    /// One random multiplier per predicted constraint.
    pub subpolynomial_multipliers: Vec<Scalar>,
    /// How many constraint evaluations have been folded so far.
    pub produced_subpolynomials: usize,
    /// The running aggregate of all folded constraint evaluations.
    pub sumcheck_evaluation: Scalar,
}

/// The queues are never consumed past their ends.
pub open spec fn vbuilder_wf(b: VerificationBuilder) -> bool {
    &&& b.consumed_intermediate_mles <= b.claimed_intermediate_mles@.len()
    &&& b.produced_subpolynomials <= b.subpolynomial_multipliers@.len()
}

impl VerificationBuilder {
    pub fn new(
        random_evaluation: Scalar,
        claimed_intermediate_mles: Vec<Scalar>,
        subpolynomial_multipliers: Vec<Scalar>,
    ) -> (r: VerificationBuilder)
        ensures
            vbuilder_wf(r),
            r.mle_evaluations.random_evaluation == random_evaluation,
            r.claimed_intermediate_mles == claimed_intermediate_mles,
            r.subpolynomial_multipliers == subpolynomial_multipliers,
            r.consumed_intermediate_mles == 0,
            r.produced_subpolynomials == 0,
            r.sumcheck_evaluation.value() == 0,
    {
        VerificationBuilder {
            mle_evaluations: SumcheckMleEvaluations { random_evaluation },
            claimed_intermediate_mles,
            consumed_intermediate_mles: 0,
            subpolynomial_multipliers,
            produced_subpolynomials: 0,
            sumcheck_evaluation: Scalar::zero(),
        }
    }

    /// Pop the next prover-claimed auxiliary opening. Fails with a shape
    /// mismatch, leaving the state unchanged, exactly when the queue is
    /// already exhausted.
    pub fn consume_intermediate_mle(&mut self) -> (r: Result<Scalar, ProofError>)
        requires
            vbuilder_wf(*old(self)),
        ensures
            vbuilder_wf(*final(self)),
            final(self).claimed_intermediate_mles == old(self).claimed_intermediate_mles,
            final(self).subpolynomial_multipliers == old(self).subpolynomial_multipliers,
            final(self).produced_subpolynomials == old(self).produced_subpolynomials,
            final(self).sumcheck_evaluation == old(self).sumcheck_evaluation,
            final(self).mle_evaluations == old(self).mle_evaluations,
            old(self).consumed_intermediate_mles < old(self).claimed_intermediate_mles@.len() ==> {
                &&& r == Ok::<Scalar, ProofError>(
                    old(self).claimed_intermediate_mles@[
                        old(self).consumed_intermediate_mles as int
                    ],
                )
                &&& final(self).consumed_intermediate_mles == old(
                    self,
                ).consumed_intermediate_mles + 1
            },
            old(self).consumed_intermediate_mles >= old(self).claimed_intermediate_mles@.len()
                ==> {
                &&& r == Err::<Scalar, ProofError>(ProofError::ShapeMismatch)
                &&& final(self).consumed_intermediate_mles == old(self).consumed_intermediate_mles
            },
    {
        if self.consumed_intermediate_mles < self.claimed_intermediate_mles.len() {
            let v = self.claimed_intermediate_mles[self.consumed_intermediate_mles];
            self.consumed_intermediate_mles = self.consumed_intermediate_mles + 1;
            Ok(v)
        } else {
            Err(ProofError::ShapeMismatch)
        }
    }

    /// Fold one constraint evaluation into the aggregate, scaled by the next
    /// random multiplier. Fails with a shape mismatch, leaving the state
    /// unchanged, exactly when all multipliers are spent.
    pub fn produce_sumcheck_subpolynomial_evaluation(&mut self, eval: &Scalar) -> (r: Result<
        (),
        ProofError,
    >)
        requires
            vbuilder_wf(*old(self)),
        ensures
            vbuilder_wf(*final(self)),
            final(self).claimed_intermediate_mles == old(self).claimed_intermediate_mles,
            final(self).subpolynomial_multipliers == old(self).subpolynomial_multipliers,
            final(self).consumed_intermediate_mles == old(self).consumed_intermediate_mles,
            final(self).mle_evaluations == old(self).mle_evaluations,
            old(self).produced_subpolynomials < old(self).subpolynomial_multipliers@.len() ==> {
                &&& r == Ok::<(), ProofError>(())
                &&& final(self).produced_subpolynomials == old(self).produced_subpolynomials + 1
                &&& final(self).sumcheck_evaluation.value() == fadd(
                    old(self).sumcheck_evaluation.value(),
                    fmul(
                        old(self).subpolynomial_multipliers@[
                            old(self).produced_subpolynomials as int
                        ].value(),
                        eval.value(),
                    ),
                )
            },
            old(self).produced_subpolynomials >= old(self).subpolynomial_multipliers@.len() ==> {
                &&& r == Err::<(), ProofError>(ProofError::ShapeMismatch)
                &&& final(self).produced_subpolynomials == old(self).produced_subpolynomials
                &&& final(self).sumcheck_evaluation == old(self).sumcheck_evaluation
            },
    {
        if self.produced_subpolynomials < self.subpolynomial_multipliers.len() {
            let m = self.subpolynomial_multipliers[self.produced_subpolynomials];
            self.sumcheck_evaluation = self.sumcheck_evaluation.add(m.mul(*eval));
            self.produced_subpolynomials = self.produced_subpolynomials + 1;
            Ok(())
        } else {
            Err(ProofError::ShapeMismatch)
        }
    }

    /// Both queues were consumed exactly: the proof's shape matched the
    /// prediction.
    pub fn completed(&self) -> (r: bool)
        ensures
            r == {
                &&& self.consumed_intermediate_mles == self.claimed_intermediate_mles@.len()
                &&& self.produced_subpolynomials == self.subpolynomial_multipliers@.len()
            },
    {
        self.consumed_intermediate_mles == self.claimed_intermediate_mles.len()
            && self.produced_subpolynomials == self.subpolynomial_multipliers.len()
    }
}

} // verus!
