use proof_of_sql_core::column::{
    ColumnRef, ColumnType, CommitmentAccessor, DataAccessor, OwnedColumn, Precision,
};
use proof_of_sql_core::count_builder::CountBuilder;
use proof_of_sql_core::identifier::Identifier;
use proof_of_sql_core::owned_table_utility::{
    bigint, boolean, decimal75, int128, int32, owned_table, scalar, smallint, varchar,
};
use proof_of_sql_core::plan::{ColumnExpr, OrExpr, ProvableExprPlan};
use proof_of_sql_core::proof_builder::{bools_to_scalars, ProofBuilder};
use proof_of_sql_core::protocol::evaluate_mle;
use proof_of_sql_core::scalar::Scalar;
use proof_of_sql_core::verification_builder::VerificationBuilder;

fn ident(name: &str) -> Identifier {
    Identifier::new(name).unwrap()
}

fn bool_ref(name: &str) -> ColumnRef {
    ColumnRef::new(ident("t"), ident(name), ColumnType::Boolean)
}

fn leaf(name: &str) -> Box<ProvableExprPlan> {
    Box::new(ProvableExprPlan::Column(ColumnExpr { column_ref: bool_ref(name) }))
}

fn scalars(values: &[u64]) -> Vec<Scalar> {
    values.iter().map(|v| Scalar::from_u64(*v)).collect()
}

fn open_bools(column: &[bool], w: &Vec<Scalar>) -> Scalar {
    evaluate_mle(&bools_to_scalars(column), w)
}

/// The tree of the adversarial-reorder scenario: OR of two same-shaped OR
/// subexpressions over four boolean columns.
fn two_level_tree() -> ProvableExprPlan {
    let left = ProvableExprPlan::Or(OrExpr::new(leaf("a"), leaf("b")));
    let right = ProvableExprPlan::Or(OrExpr::new(leaf("c"), leaf("d")));
    ProvableExprPlan::Or(OrExpr::new(Box::new(left), Box::new(right)))
}

fn two_level_data() -> DataAccessor {
    let entries = vec![
        (bool_ref("a"), OwnedColumn::Boolean(vec![true, false, true])),
        (bool_ref("b"), OwnedColumn::Boolean(vec![false, false, true])),
        (bool_ref("c"), OwnedColumn::Boolean(vec![true, true, false])),
        (bool_ref("d"), OwnedColumn::Boolean(vec![false, true, false])),
    ];
    DataAccessor::new(3, entries)
}

/// Counting a tree twice, or over different data, yields identical triples.
#[test]
fn tree_count_is_pure() {
    let tree = two_level_tree();
    let mut first = CountBuilder::new();
    tree.count(&mut first).unwrap();
    let mut second = CountBuilder::new();
    tree.count(&mut second).unwrap();
    assert_eq!(first.subpolynomials(), 3);
    assert_eq!(first.intermediate_mles(), 3);
    assert_eq!(first.degree(), 3);
    assert_eq!(second.subpolynomials(), first.subpolynomials());
    assert_eq!(second.intermediate_mles(), first.intermediate_mles());
    assert_eq!(second.degree(), first.degree());
}

/// The three passes agree over a two-level tree, and the verifier replays the
/// prover's queues in the exact production order.
#[test]
fn tree_prove_and_verify_round_trip() {
    let tree = two_level_tree();
    let accessor = two_level_data();
    let alloc = bumpalo::Bump::new();

    let plain = tree.result_evaluate(3, &alloc, &accessor).as_boolean().unwrap();
    assert_eq!(plain, &[true, true, true]);

    let mut builder = ProofBuilder::new(3);
    let proved = tree.prover_evaluate(&mut builder, &alloc, &accessor).as_boolean().unwrap();
    assert_eq!(proved, plain);
    assert_eq!(builder.mles.len(), 3);
    // auxiliary columns in traversal order: a&&b, c&&d, (a||b)&&(c||d)
    assert_eq!(builder.mles[0], bools_to_scalars(&[false, false, true]));
    assert_eq!(builder.mles[1], bools_to_scalars(&[false, true, false]));
    assert_eq!(builder.mles[2], bools_to_scalars(&[true, false, false]));

    let w = scalars(&[2, 3, 5]);
    let rand_eval = Scalar::from_u64(7);
    let multipliers = scalars(&[1, 2, 3]);
    let claimed: Vec<Scalar> = vec![
        evaluate_mle(&builder.mles[0], &w),
        evaluate_mle(&builder.mles[1], &w),
        evaluate_mle(&builder.mles[2], &w),
    ];

    let commitments = CommitmentAccessor::new(vec![
        (bool_ref("a"), open_bools(&[true, false, true], &w)),
        (bool_ref("b"), open_bools(&[false, false, true], &w)),
        (bool_ref("c"), open_bools(&[true, true, false], &w)),
        (bool_ref("d"), open_bools(&[false, true, false], &w)),
    ]);

    let mut vb = VerificationBuilder::new(rand_eval, claimed, multipliers);
    let root = tree.verifier_evaluate(&mut vb, &commitments).unwrap();
    // the root's claimed opening equals the committed result's opening
    assert_eq!(root, open_bools(&[true, true, true], &w));
    assert!(vb.completed());

    // the folded aggregate equals the engine-certified value of an honest run
    let engine = honest_engine_value(&builder, &w, &rand_eval, &vb.subpolynomial_multipliers);
    assert_eq!(vb.sumcheck_evaluation, engine);
}

/// What the external sumcheck engine certifies for an honest run: each
/// constraint's opening, scaled by the row-selector opening and its
/// multiplier.
fn honest_engine_value(
    builder: &ProofBuilder,
    w: &Vec<Scalar>,
    rand_eval: &Scalar,
    multipliers: &Vec<Scalar>,
) -> Scalar {
    let mut total = Scalar::zero();
    for (k, subpoly) in builder.subpolynomials.iter().enumerate() {
        let mut opening = Scalar::zero();
        for term in &subpoly.terms {
            let mut product = term.coefficient;
            for factor in &term.factors {
                product = product.mul(evaluate_mle(factor, w));
            }
            opening = opening.add(product);
        }
        total = total.add(multipliers[k].mul(rand_eval.mul(opening)));
    }
    total
}

/// Swapping the claimed openings of two same-shaped subexpressions must not
/// validate the reordered proof: the verifier's aggregate no longer matches
/// the engine-certified value.
#[test]
fn adversarial_reordering_does_not_validate() {
    let tree = two_level_tree();
    let accessor = two_level_data();
    let alloc = bumpalo::Bump::new();

    let mut builder = ProofBuilder::new(3);
    tree.prover_evaluate(&mut builder, &alloc, &accessor);
    let w = scalars(&[2, 3, 5]);
    let rand_eval = Scalar::from_u64(7);
    let multipliers = scalars(&[1, 2, 3]);
    let engine = honest_engine_value(&builder, &w, &rand_eval, &multipliers);

    // the adversary swaps the two subexpressions' auxiliary openings
    let swapped: Vec<Scalar> = vec![
        evaluate_mle(&builder.mles[1], &w),
        evaluate_mle(&builder.mles[0], &w),
        evaluate_mle(&builder.mles[2], &w),
    ];
    let commitments = CommitmentAccessor::new(vec![
        (bool_ref("a"), open_bools(&[true, false, true], &w)),
        (bool_ref("b"), open_bools(&[false, false, true], &w)),
        (bool_ref("c"), open_bools(&[true, true, false], &w)),
        (bool_ref("d"), open_bools(&[false, true, false], &w)),
    ]);
    let mut vb = VerificationBuilder::new(rand_eval, swapped, multipliers);
    tree.verifier_evaluate(&mut vb, &commitments).unwrap();
    assert_ne!(vb.sumcheck_evaluation, engine);
}

/// The column-reference collection records each leaf once.
#[test]
fn column_references_are_collected_without_duplicates() {
    let tree = ProvableExprPlan::Or(OrExpr::new(
        Box::new(ProvableExprPlan::Or(OrExpr::new(leaf("a"), leaf("b")))),
        leaf("a"),
    ));
    let mut refs: Vec<ColumnRef> = Vec::new();
    tree.get_column_references(&mut refs);
    assert_eq!(refs.len(), 2);
    assert!(refs[0].eq_ref(&bool_ref("a")));
    assert!(refs[1].eq_ref(&bool_ref("b")));
}

/// Identifiers accept exactly the valid names.
#[test]
fn identifier_validation() {
    assert!(Identifier::new("a").is_some());
    assert!(Identifier::new("_x9").is_some());
    assert!(Identifier::new("Table_1").is_some());
    assert!(Identifier::new("").is_none());
    assert!(Identifier::new("9a").is_none());
    assert!(Identifier::new("a-b").is_none());
    assert_eq!(ident("abc").as_str(), "abc");
    assert!(ident("abc").eq_name(&ident("abc")));
    assert!(!ident("abc").eq_name(&ident("abd")));
}

/// The table helpers build the advertised columns, and a table assembles.
#[test]
fn owned_table_helpers_build_expected_columns() {
    let table = owned_table(vec![
        bigint("a", vec![1, 2, 3]),
        boolean("b", vec![true, false, true]),
        int128("c", vec![1, 2, 3]),
        scalar("d", scalars(&[1, 2, 3])),
        varchar("e", vec!["x".to_string(), "y".to_string(), "z".to_string()]),
        decimal75("f", 12, 1, scalars(&[1, 2, 3])),
        smallint("g", vec![1, 2, 3]),
        int32("h", vec![1, 2, 3]),
    ]);
    assert_eq!(table.num_columns(), 8);
    let (name, column) = table.column_at(1);
    assert_eq!(name.as_str(), "b");
    assert!(matches!(column, OwnedColumn::Boolean(v) if v == &vec![true, false, true]));
    let (name, column) = table.column_at(5);
    assert_eq!(name.as_str(), "f");
    match column {
        OwnedColumn::Decimal75(p, s, v) => {
            assert_eq!(p.value(), 12);
            assert_eq!(*s, 1);
            assert_eq!(v.len(), 3);
        },
        _ => panic!("expected a decimal column"),
    }
    assert_eq!(Precision::new(0), None);
    assert!(Precision::new(75).is_some());
}

/// Data-accessor lookups respect the full reference key, type included.
#[test]
fn data_accessor_lookup_respects_key() {
    let accessor = two_level_data();
    assert!(accessor.get_boolean_column(&bool_ref("a")).is_some());
    assert!(accessor.get_boolean_column(&bool_ref("missing")).is_none());
    let wrong_type = ColumnRef::new(ident("t"), ident("a"), ColumnType::BigInt);
    assert!(accessor.get_boolean_column(&wrong_type).is_none());
    let wrong_table = ColumnRef::new(ident("other"), ident("a"), ColumnType::Boolean);
    assert!(accessor.get_boolean_column(&wrong_table).is_none());
}

/// A proof that under-supplies auxiliary openings relative to the predicted
/// count is rejected as a shape mismatch before any algebra is trusted.
#[test]
fn tree_under_supplied_proof_is_shape_mismatch() {
    let tree = two_level_tree();
    let accessor = two_level_data();
    let alloc = bumpalo::Bump::new();
    let mut builder = ProofBuilder::new(3);
    tree.prover_evaluate(&mut builder, &alloc, &accessor);

    let w = scalars(&[2, 3, 5]);
    let rand_eval = Scalar::from_u64(7);
    let commitments = CommitmentAccessor::new(vec![
        (bool_ref("a"), open_bools(&[true, false, true], &w)),
        (bool_ref("b"), open_bools(&[false, false, true], &w)),
        (bool_ref("c"), open_bools(&[true, true, false], &w)),
        (bool_ref("d"), open_bools(&[false, true, false], &w)),
    ]);
    // only two of the three predicted auxiliary openings are supplied
    let short_claimed = vec![
        evaluate_mle(&builder.mles[0], &w),
        evaluate_mle(&builder.mles[1], &w),
    ];
    let mut vb = VerificationBuilder::new(rand_eval, short_claimed, scalars(&[1, 2, 3]));
    let outcome = tree.verifier_evaluate(&mut vb, &commitments);
    assert_eq!(outcome, Err(proof_of_sql_core::error::ProofError::ShapeMismatch));
    assert!(!vb.completed());
}

/// Every node reports the boolean result type.
#[test]
fn tree_data_type_is_boolean() {
    let tree = two_level_tree();
    assert_eq!(tree.data_type(), ColumnType::Boolean);
}
