use proof_of_sql_core::count_builder::CountBuilder;
use proof_of_sql_core::error::ProofError;
use proof_of_sql_core::or_expr::{count_or, prover_evaluate_or, result_evaluate_or, verifier_evaluate_or};
use proof_of_sql_core::proof_builder::{bools_to_scalars, ProofBuilder, SumcheckSubpolynomialType};
use proof_of_sql_core::protocol::{evaluate_mle, prove_or, verify_or};
use proof_of_sql_core::scalar::Scalar;
use proof_of_sql_core::verification_builder::VerificationBuilder;

fn scalars(values: &[u64]) -> Vec<Scalar> {
    values.iter().map(|v| Scalar::from_u64(*v)).collect()
}

/// The concrete OR scenario: output, auxiliary column, the registered
/// constraint holding at every row, and the constructed proof verifying.
#[test]
fn or_concrete_scenario_produces_expected_columns() {
    let lhs = vec![true, false, true, false];
    let rhs = vec![false, false, true, true];
    let alloc = bumpalo::Bump::new();

    let out = result_evaluate_or(4, &alloc, &lhs, &rhs);
    assert_eq!(out, &[true, false, true, true]);

    let mut builder = ProofBuilder::new(4);
    let prover_out = prover_evaluate_or(&mut builder, &alloc, &lhs, &rhs);
    assert_eq!(prover_out, &[true, false, true, true]);

    // the one auxiliary column is the conjunction
    assert_eq!(builder.mles.len(), 1);
    let expected_and = bools_to_scalars(&[false, false, true, false]);
    assert_eq!(builder.mles[0], expected_and);

    // the one registered constraint A[i] - L[i] * R[i] vanishes at every row
    assert_eq!(builder.subpolynomials.len(), 1);
    let subpoly = &builder.subpolynomials[0];
    assert!(matches!(subpoly.kind, SumcheckSubpolynomialType::Identity));
    assert_eq!(subpoly.terms.len(), 2);
    for i in 0..4 {
        let mut row_value = Scalar::zero();
        for term in &subpoly.terms {
            let mut product = term.coefficient;
            for factor in &term.factors {
                product = product.mul(factor[i]);
            }
            row_value = row_value.add(product);
        }
        assert_eq!(row_value, Scalar::zero());
    }
}

/// Proving then verifying OR(L, R) succeeds against the honest openings.
#[test]
fn or_proof_verifies_against_honest_openings() {
    let lhs = vec![true, false, true, false];
    let rhs = vec![false, false, true, true];
    let w = scalars(&[2, 3, 5, 7]);
    let rand_eval = Scalar::from_u64(11);
    let multipliers = scalars(&[13]);

    let proof = prove_or(&lhs, &rhs, &w, &rand_eval, &multipliers).unwrap();
    assert_eq!(proof.output, vec![true, false, true, true]);

    let lhs_eval = evaluate_mle(&bools_to_scalars(&lhs), &w);
    let rhs_eval = evaluate_mle(&bools_to_scalars(&rhs), &w);
    let result_eval = evaluate_mle(&bools_to_scalars(&proof.output), &w);
    let outcome = verify_or(proof, &lhs_eval, &rhs_eval, &result_eval, &rand_eval, multipliers);
    assert_eq!(outcome, Ok(()));
}

/// Flipping any single bit of the claimed output before verification causes
/// rejection as a verification failure.
#[test]
fn or_proof_rejects_any_flipped_output_bit() {
    let lhs = vec![true, false, true, false];
    let rhs = vec![false, false, true, true];
    let w = scalars(&[2, 3, 5, 7]);
    let rand_eval = Scalar::from_u64(11);

    let lhs_eval = evaluate_mle(&bools_to_scalars(&lhs), &w);
    let rhs_eval = evaluate_mle(&bools_to_scalars(&rhs), &w);
    for flip in 0..4 {
        let multipliers = scalars(&[13]);
        let proof = prove_or(&lhs, &rhs, &w, &rand_eval, &multipliers).unwrap();
        let mut tampered = proof.output.clone();
        tampered[flip] = !tampered[flip];
        let result_eval = evaluate_mle(&bools_to_scalars(&tampered), &w);
        let outcome =
            verify_or(proof, &lhs_eval, &rhs_eval, &result_eval, &rand_eval, multipliers);
        assert_eq!(outcome, Err(ProofError::VerificationError));
    }
}

/// A tampered engine aggregate is rejected as a verification failure.
#[test]
fn or_proof_rejects_tampered_sumcheck_evaluation() {
    let lhs = vec![true, true];
    let rhs = vec![false, true];
    let w = scalars(&[4, 9]);
    let rand_eval = Scalar::from_u64(6);
    let multipliers = scalars(&[5]);

    let mut proof = prove_or(&lhs, &rhs, &w, &rand_eval, &multipliers).unwrap();
    proof.claimed_sumcheck_evaluation =
        proof.claimed_sumcheck_evaluation.add(Scalar::one());
    let lhs_eval = evaluate_mle(&bools_to_scalars(&lhs), &w);
    let rhs_eval = evaluate_mle(&bools_to_scalars(&rhs), &w);
    let result_eval = evaluate_mle(&bools_to_scalars(&proof.output), &w);
    let outcome = verify_or(proof, &lhs_eval, &rhs_eval, &result_eval, &rand_eval, multipliers);
    assert_eq!(outcome, Err(ProofError::VerificationError));
}

/// The counting pass is a pure function of tree shape: two invocations give
/// identical (constraints, auxiliaries, max-degree) triples, whatever the
/// data.
#[test]
fn count_is_pure_function_of_shape() {
    let mut first = CountBuilder::new();
    count_or(&mut first);
    let mut second = CountBuilder::new();
    count_or(&mut second);
    assert_eq!(first.subpolynomials(), second.subpolynomials());
    assert_eq!(first.intermediate_mles(), second.intermediate_mles());
    assert_eq!(first.degree(), second.degree());
    assert_eq!(first.subpolynomials(), 1);
    assert_eq!(first.intermediate_mles(), 1);
    assert_eq!(first.degree(), 3);

    // counting twice accumulates the same deltas again
    count_or(&mut first);
    assert_eq!(first.subpolynomials(), 2);
    assert_eq!(first.intermediate_mles(), 2);
    assert_eq!(first.degree(), 3);
}

/// The empty table is proved and verified without panicking.
#[test]
fn zero_table_length_does_not_panic() {
    let lhs: Vec<bool> = vec![];
    let rhs: Vec<bool> = vec![];
    let w: Vec<Scalar> = vec![];
    let rand_eval = Scalar::from_u64(3);
    let multipliers = scalars(&[2]);

    let proof = prove_or(&lhs, &rhs, &w, &rand_eval, &multipliers).unwrap();
    assert!(proof.output.is_empty());
    let zero = Scalar::zero();
    let outcome = verify_or(proof, &zero, &zero, &zero, &rand_eval, multipliers);
    assert_eq!(outcome, Ok(()));
}

/// Mismatched operand lengths are rejected deterministically before any
/// cryptographic work.
#[test]
fn mismatched_lengths_are_rejected() {
    let lhs = vec![true, false];
    let rhs = vec![true];
    let w = scalars(&[2, 3]);
    let rand_eval = Scalar::from_u64(3);
    let multipliers = scalars(&[2]);
    let outcome = prove_or(&lhs, &rhs, &w, &rand_eval, &multipliers);
    assert!(matches!(outcome, Err(ProofError::LengthMismatch)));

    // weights of the wrong length are the same fault
    let w_short = scalars(&[2]);
    let outcome = prove_or(&lhs, &lhs, &w_short, &rand_eval, &multipliers);
    assert!(matches!(outcome, Err(ProofError::LengthMismatch)));
}

/// A challenge whose multiplier count disagrees with the predicted
/// constraint count is a shape mismatch, on either end.
#[test]
fn wrong_shape_is_rejected_before_cryptography() {
    let lhs = vec![true, false];
    let rhs = vec![false, false];
    let w = scalars(&[2, 3]);
    let rand_eval = Scalar::from_u64(3);

    let two_multipliers = scalars(&[2, 4]);
    let outcome = prove_or(&lhs, &rhs, &w, &rand_eval, &two_multipliers);
    assert!(matches!(outcome, Err(ProofError::ShapeMismatch)));

    let multipliers = scalars(&[2]);
    let mut proof = prove_or(&lhs, &rhs, &w, &rand_eval, &multipliers).unwrap();
    proof.claimed_mles.push(Scalar::zero());
    let lhs_eval = evaluate_mle(&bools_to_scalars(&lhs), &w);
    let rhs_eval = evaluate_mle(&bools_to_scalars(&rhs), &w);
    let result_eval = evaluate_mle(&bools_to_scalars(&vec![true, false]), &w);
    let outcome = verify_or(proof, &lhs_eval, &rhs_eval, &result_eval, &rand_eval, multipliers);
    assert_eq!(outcome, Err(ProofError::ShapeMismatch));
}

/// The verifier's queues fail with a shape mismatch exactly when exhausted.
#[test]
fn exhausted_verifier_queues_are_shape_mismatches() {
    let mut builder = VerificationBuilder::new(Scalar::from_u64(3), vec![], scalars(&[2]));
    let outcome = verifier_evaluate_or(&mut builder, &Scalar::one(), &Scalar::one());
    assert_eq!(outcome, Err(ProofError::ShapeMismatch));

    let mut builder = VerificationBuilder::new(Scalar::from_u64(3), scalars(&[7]), vec![]);
    let outcome = verifier_evaluate_or(&mut builder, &Scalar::one(), &Scalar::one());
    assert_eq!(outcome, Err(ProofError::ShapeMismatch));
}

/// `result_evaluate` and `prover_evaluate` on identical inputs return
/// bit-identical output columns; only builder-visible side effects differ.
#[test]
fn result_and_prover_passes_are_output_identical() {
    let lhs = vec![true, false, false, true, true];
    let rhs = vec![true, true, false, false, true];
    let alloc = bumpalo::Bump::new();

    let plain = result_evaluate_or(5, &alloc, &lhs, &rhs);
    let mut builder = ProofBuilder::new(5);
    let proved = prover_evaluate_or(&mut builder, &alloc, &lhs, &rhs);
    assert_eq!(plain, proved);

    // a second prover pass is idempotent on the output
    let mut second_builder = ProofBuilder::new(5);
    let proved_again = prover_evaluate_or(&mut second_builder, &alloc, &lhs, &rhs);
    assert_eq!(proved, proved_again);
    assert_eq!(builder.mles, second_builder.mles);
}

/// An exact opening: the inner product of a column with the weights.
#[test]
fn evaluate_mle_matches_direct_computation() {
    // 1*2 + 0*3 + 1*5 = 7
    let column = bools_to_scalars(&[true, false, true]);
    let w = scalars(&[2, 3, 5]);
    assert_eq!(evaluate_mle(&column, &w), Scalar::from_u64(7));
}
