//! The provable expression tree.
//!
//! A closed tagged-union node type, built once per query by the excluded
//! parsing layer and reused unmodified across the counting, result, prover
//! and verifier passes. Every node owns its children exclusively; prover and
//! verifier walk the identical tree in the identical order, so the position
//! of every auxiliary value and constraint matches by construction.
use vstd::prelude::*;

verus! {

use crate::column::{
    lookup_column_from,
    lookup_opening_from,
    ref_key,
    Column,
    ColumnRef,
    ColumnType,
    CommitmentAccessor,
    DataAccessor,
    OwnedColumn,
};
use crate::count_builder::CountBuilder;
use crate::error::ProofError;
use crate::or_expr::{
    count_or,
    prover_evaluate_or,
    result_evaluate_or,
    seq_and,
    seq_or,
    verifier_evaluate_or,
};
use crate::proof_builder::{builder_wf, mles_view, subpolynomial_holds, ProofBuilder, MAX_SUMCHECK_DEGREE};
use crate::scalar::{bools_as_field, fadd, fmul, fsub, Scalar};
use crate::verification_builder::{vbuilder_wf, VerificationBuilder};

/// A leaf reading one boolean column.
#[derive(Debug)]
pub struct ColumnExpr {
    pub column_ref: ColumnRef,
}

/// A logical-OR node over two subtrees.
#[derive(Debug)]
pub struct OrExpr {
    pub lhs: Box<ProvableExprPlan>,
    pub rhs: Box<ProvableExprPlan>,
}

/// A provable expression: the closed set of operator nodes. Further
/// operators (AND, NOT, comparisons) follow the same shape as OR.
#[derive(Debug)]
pub enum ProvableExprPlan {
    Column(ColumnExpr),
    Or(OrExpr),
}

impl OrExpr {
    /// Create a logical OR expression over two subtrees.
    pub fn new(lhs: Box<ProvableExprPlan>, rhs: Box<ProvableExprPlan>) -> (r: OrExpr)
        ensures
            r == (OrExpr { lhs, rhs }),
    {
        OrExpr { lhs, rhs }
    }
}

/// Structural height of a tree, the measure every pass recurses along.
pub open spec fn plan_height(e: ProvableExprPlan) -> nat
    decreases e,
{
    match e {
        ProvableExprPlan::Column(_) => 1,
        ProvableExprPlan::Or(o) => 1 + if plan_height(*o.lhs) > plan_height(*o.rhs) {
            plan_height(*o.lhs)
        } else {
            plan_height(*o.rhs)
        },
    }
}

/// How many intermediate auxiliary columns a tree produces and consumes.
pub open spec fn plan_mle_count(e: ProvableExprPlan) -> nat
    decreases e,
{
    match e {
        ProvableExprPlan::Column(_) => 0,
        ProvableExprPlan::Or(o) => plan_mle_count(*o.lhs) + plan_mle_count(*o.rhs) + 1,
    }
}

/// How many sumcheck constraints a tree produces and consumes.
pub open spec fn plan_subpolynomial_count(e: ProvableExprPlan) -> nat
    decreases e,
{
    match e {
        ProvableExprPlan::Column(_) => 0,
        ProvableExprPlan::Or(o) => plan_subpolynomial_count(*o.lhs) + plan_subpolynomial_count(
            *o.rhs,
        ) + 1,
    }
}

/// The highest constraint degree a tree registers: every OR node registers
/// one constraint of the protocol-wide maximum degree, a bare column leaf
/// registers none.
pub open spec fn plan_max_degree(e: ProvableExprPlan) -> nat {
    match e {
        ProvableExprPlan::Column(_) => 0,
        ProvableExprPlan::Or(_) => MAX_SUMCHECK_DEGREE as nat,
    }
}

/// The larger of two counts.
pub open spec fn spec_max(a: int, b: int) -> int {
    if a > b {
        a
    } else {
        b
    }
}

/// The tree is well-typed over the accessor's data: every leaf resolves to a
/// boolean column spanning the whole table. The excluded type-checking layer
/// establishes this at construction time; a violation below is a programming
/// fault, not a query-level error.
pub open spec fn plan_well_typed(
    e: ProvableExprPlan,
    entries: Seq<(ColumnRef, OwnedColumn)>,
    n: int,
) -> bool
    decreases e,
{
    match e {
        ProvableExprPlan::Column(c) => match lookup_column_from(
            entries,
            ref_key(c.column_ref),
            0,
        ) {
            Some(col) => col is Boolean && col.spec_len() == n,
            None => false,
        },
        ProvableExprPlan::Or(o) => plan_well_typed(*o.lhs, entries, n) && plan_well_typed(
            *o.rhs,
            entries,
            n,
        ),
    }
}

/// The boolean column a tree evaluates to over the accessor's data.
pub open spec fn plan_result_bools(
    e: ProvableExprPlan,
    entries: Seq<(ColumnRef, OwnedColumn)>,
) -> Seq<bool>
    decreases e,
{
    match e {
        ProvableExprPlan::Column(c) => match lookup_column_from(
            entries,
            ref_key(c.column_ref),
            0,
        ) {
            Some(col) => if col is Boolean {
                col->Boolean_0@
            } else {
                Seq::empty()
            },
            None => Seq::empty(),
        },
        ProvableExprPlan::Or(o) => seq_or(
            plan_result_bools(*o.lhs, entries),
            plan_result_bools(*o.rhs, entries),
        ),
    }
}

/// The auxiliary columns a tree's prover pass appends, in traversal order:
/// children first, then this node's own conjunction column.
pub open spec fn plan_aux_columns(
    e: ProvableExprPlan,
    entries: Seq<(ColumnRef, OwnedColumn)>,
) -> Seq<Seq<int>>
    decreases e,
{
    match e {
        ProvableExprPlan::Column(_) => Seq::empty(),
        ProvableExprPlan::Or(o) => plan_aux_columns(*o.lhs, entries) + plan_aux_columns(
            *o.rhs,
            entries,
        ) + seq![
            bools_as_field(
                seq_and(plan_result_bools(*o.lhs, entries), plan_result_bools(*o.rhs, entries)),
            ),
        ],
    }
}

/// A well-typed tree evaluates to a column spanning the whole table.
pub proof fn lemma_plan_result_len(
    e: ProvableExprPlan,
    entries: Seq<(ColumnRef, OwnedColumn)>,
    n: int,
)
    requires
        plan_well_typed(e, entries, n),
    ensures
        plan_result_bools(e, entries).len() == n,
    decreases e,
{
    match e {
        ProvableExprPlan::Column(_) => {},
        ProvableExprPlan::Or(o) => {
            lemma_plan_result_len(*o.lhs, entries, n);
            lemma_plan_result_len(*o.rhs, entries, n);
        },
    }
}

/// A tree appends exactly as many auxiliary columns as the counting pass
/// predicts.
pub proof fn lemma_plan_aux_len(e: ProvableExprPlan, entries: Seq<(ColumnRef, OwnedColumn)>)
    ensures
        plan_aux_columns(e, entries).len() == plan_mle_count(e),
    decreases e,
{
    match e {
        ProvableExprPlan::Column(_) => {},
        ProvableExprPlan::Or(o) => {
            lemma_plan_aux_len(*o.lhs, entries);
            lemma_plan_aux_len(*o.rhs, entries);
        },
    }
}

/// The counting pass is a pure function of tree shape: from one starting
/// state, any two invocations over the same tree — on different data, or
/// twice in a row — end in identical (constraints, auxiliaries, max-degree)
/// triples, since each outcome is determined by the tree's shape counts
/// alone.
pub proof fn lemma_count_pure(
    e: ProvableExprPlan,
    start_subs: int,
    start_mles: int,
    start_degree: int,
    first: (int, int, int),
    second: (int, int, int),
)
    requires
        first.0 == start_subs + plan_subpolynomial_count(e),
        second.0 == start_subs + plan_subpolynomial_count(e),
        first.1 == start_mles + plan_mle_count(e),
        second.1 == start_mles + plan_mle_count(e),
        first.2 == spec_max(start_degree, plan_max_degree(e) as int),
        second.2 == spec_max(start_degree, plan_max_degree(e) as int),
    ensures
        first == second,
{
}

/// Every leaf of the tree has an opening in the commitment accessor.
pub open spec fn plan_covered(e: ProvableExprPlan, centries: Seq<(ColumnRef, Scalar)>) -> bool
    decreases e,
{
    match e {
        ProvableExprPlan::Column(c) => lookup_opening_from(
            centries,
            ref_key(c.column_ref),
            0,
        ) is Some,
        ProvableExprPlan::Or(o) => plan_covered(*o.lhs, centries) && plan_covered(
            *o.rhs,
            centries,
        ),
    }
}

/// What one verifying pass over a subtree computes, from the claimed
/// openings alone: the subtree's claimed root opening, the two queue
/// positions after it, and the new constraint aggregate.
pub open spec fn plan_verifier_state(
    e: ProvableExprPlan,
    centries: Seq<(ColumnRef, Scalar)>,
    claimed: Seq<Scalar>,
    mults: Seq<Scalar>,
    rand: int,
    pos: int,
    mpos: int,
    agg: int,
) -> (int, int, int, int)
    decreases e,
{
    match e {
        ProvableExprPlan::Column(c) => (
            match lookup_opening_from(centries, ref_key(c.column_ref), 0) {
                Some(s) => s.value(),
                None => 0,
            },
            pos,
            mpos,
            agg,
        ),
        ProvableExprPlan::Or(o) => {
            let left = plan_verifier_state(*o.lhs, centries, claimed, mults, rand, pos, mpos, agg);
            let right = plan_verifier_state(
                *o.rhs,
                centries,
                claimed,
                mults,
                rand,
                left.1,
                left.2,
                left.3,
            );
            let claimed_and = claimed[right.1].value();
            (
                fsub(fadd(left.0, right.0), claimed_and),
                right.1 + 1,
                right.2 + 1,
                fadd(
                    right.3,
                    fmul(
                        mults[right.2].value(),
                        fmul(rand, fsub(claimed_and, fmul(left.0, right.0))),
                    ),
                ),
            )
        },
    }
}

/// One verifying pass advances each queue by exactly the counted amount.
pub proof fn lemma_plan_verifier_state_counts(
    e: ProvableExprPlan,
    centries: Seq<(ColumnRef, Scalar)>,
    claimed: Seq<Scalar>,
    mults: Seq<Scalar>,
    rand: int,
    pos: int,
    mpos: int,
    agg: int,
)
    ensures
        plan_verifier_state(e, centries, claimed, mults, rand, pos, mpos, agg).1 == pos
            + plan_mle_count(e),
        plan_verifier_state(e, centries, claimed, mults, rand, pos, mpos, agg).2 == mpos
            + plan_subpolynomial_count(e),
    decreases e,
{
    match e {
        ProvableExprPlan::Column(_) => {},
        ProvableExprPlan::Or(o) => {
            let left = plan_verifier_state(*o.lhs, centries, claimed, mults, rand, pos, mpos, agg);
            lemma_plan_verifier_state_counts(*o.lhs, centries, claimed, mults, rand, pos, mpos, agg);
            lemma_plan_verifier_state_counts(
                *o.rhs,
                centries,
                claimed,
                mults,
                rand,
                left.1,
                left.2,
                left.3,
            );
        },
    }
}

/// The leaf references of a tree, in traversal order.
pub open spec fn plan_column_refs(e: ProvableExprPlan) -> Seq<ColumnRef>
    decreases e,
{
    match e {
        ProvableExprPlan::Column(c) => seq![c.column_ref],
        ProvableExprPlan::Or(o) => plan_column_refs(*o.lhs) + plan_column_refs(*o.rhs),
    }
}

/// Some entry of the sequence denotes `key`.
pub open spec fn contains_ref(s: Seq<ColumnRef>, key: (Seq<char>, Seq<char>, ColumnType)) -> bool {
    exists|i: int| 0 <= i < s.len() && ref_key(#[trigger] s[i]) == key
}

/// Record a reference in the set, unless an entry already denotes it.
fn insert_ref(columns: &mut Vec<ColumnRef>, column_ref: &ColumnRef)
    ensures
        final(columns)@.subrange(0, old(columns)@.len() as int) == old(columns)@,
        old(columns)@.len() <= final(columns)@.len(),
        contains_ref(final(columns)@, ref_key(*column_ref)),
        forall|k: int|
            0 <= k < final(columns)@.len() ==> contains_ref(
                old(columns)@,
                ref_key(#[trigger] final(columns)@[k]),
            ) || ref_key(final(columns)@[k]) == ref_key(*column_ref),
{
    let n = columns.len();
    let mut i: usize = 0;
    while i < n
        invariant
            i <= n,
            n == columns@.len(),
            columns@ == old(columns)@,
        decreases n - i,
    {
        if columns[i].eq_ref(column_ref) {
            proof {
                assert(columns@.subrange(0, columns@.len() as int) =~= columns@);
                assert forall|k: int| 0 <= k < columns@.len() implies contains_ref(
                    columns@,
                    ref_key(#[trigger] columns@[k]),
                ) by {
                    assert(0 <= k < columns@.len() && ref_key(columns@[k]) == ref_key(
                        columns@[k],
                    ));
                }
            }
            return ;
        }
        i = i + 1;
    }
    columns.push(column_ref.duplicate());
    proof {
        let fin = columns@;
        let prior = old(columns)@;
        assert(fin.subrange(0, prior.len() as int) =~= prior);
        assert(ref_key(fin[prior.len() as int]) == ref_key(*column_ref));
        assert forall|k: int| 0 <= k < fin.len() implies contains_ref(
            prior,
            ref_key(#[trigger] fin[k]),
        ) || ref_key(fin[k]) == ref_key(*column_ref) by {
            if k < prior.len() {
                assert(ref_key(prior[k]) == ref_key(fin[k]));
            }
        }
    }
}

impl ProvableExprPlan {
    /// Replay this subtree on the verifier side over the claimed openings
    /// alone, consuming the two queues in the exact order the prover wrote
    /// them. Fails with a shape mismatch exactly when a queue runs out.
    pub fn verifier_evaluate(
        &self,
        builder: &mut VerificationBuilder,
        accessor: &CommitmentAccessor,
    ) -> (r: Result<Scalar, ProofError>)
        requires
            vbuilder_wf(*old(builder)),
            plan_covered(*self, accessor.entries@),
        ensures
            vbuilder_wf(*final(builder)),
            final(builder).claimed_intermediate_mles == old(builder).claimed_intermediate_mles,
            final(builder).subpolynomial_multipliers == old(builder).subpolynomial_multipliers,
            final(builder).mle_evaluations == old(builder).mle_evaluations,
            old(builder).consumed_intermediate_mles + plan_mle_count(*self) <= old(
                builder,
            ).claimed_intermediate_mles@.len() && old(builder).produced_subpolynomials
                + plan_subpolynomial_count(*self) <= old(
                builder,
            ).subpolynomial_multipliers@.len() ==> {
                let st = plan_verifier_state(
                    *self,
                    accessor.entries@,
                    old(builder).claimed_intermediate_mles@,
                    old(builder).subpolynomial_multipliers@,
                    old(builder).mle_evaluations.random_evaluation.value(),
                    old(builder).consumed_intermediate_mles as int,
                    old(builder).produced_subpolynomials as int,
                    old(builder).sumcheck_evaluation.value(),
                );
                &&& r is Ok
                &&& r->Ok_0.value() == st.0
                &&& final(builder).consumed_intermediate_mles as int == st.1
                &&& final(builder).produced_subpolynomials as int == st.2
                &&& final(builder).sumcheck_evaluation.value() == st.3
            },
            !(old(builder).consumed_intermediate_mles + plan_mle_count(*self) <= old(
                builder,
            ).claimed_intermediate_mles@.len() && old(builder).produced_subpolynomials
                + plan_subpolynomial_count(*self) <= old(
                builder,
            ).subpolynomial_multipliers@.len()) ==> r == Err::<Scalar, ProofError>(
                ProofError::ShapeMismatch,
            ),
        decreases plan_height(*self), 1nat,
    {
        match self {
            ProvableExprPlan::Column(c) => match accessor.get_opening(&c.column_ref) {
                Some(s) => Ok(s),
                None => vstd::pervasive::unreached(),
            },
            ProvableExprPlan::Or(o) => o.verifier_evaluate(builder, accessor),
        }
    }

    /// Record the identity of every column this subtree reads.
    pub fn get_column_references(&self, columns: &mut Vec<ColumnRef>)
        ensures
            final(columns)@.subrange(0, old(columns)@.len() as int) == old(columns)@,
            old(columns)@.len() <= final(columns)@.len(),
            forall|j: int|
                0 <= j < plan_column_refs(*self).len() ==> contains_ref(
                    final(columns)@,
                    ref_key(#[trigger] plan_column_refs(*self)[j]),
                ),
            forall|k: int|
                0 <= k < final(columns)@.len() ==> contains_ref(
                    old(columns)@,
                    ref_key(#[trigger] final(columns)@[k]),
                ) || contains_ref(plan_column_refs(*self), ref_key(final(columns)@[k])),
        decreases plan_height(*self), 1nat,
    {
        match self {
            ProvableExprPlan::Column(c) => {
                insert_ref(columns, &c.column_ref);
                proof {
                    assert(plan_column_refs(*self)[0] == c.column_ref);
                }
            },
            ProvableExprPlan::Or(o) => o.get_column_references(columns),
        }
    }

    /// The static type of the column this node evaluates to.
    pub fn data_type(&self) -> (r: ColumnType)
        ensures
            r == ColumnType::Boolean,
    {
        match self {
            ProvableExprPlan::Column(_) => ColumnType::Boolean,
            ProvableExprPlan::Or(o) => o.data_type(),
        }
    }

    /// Tally this tree's contribution to the proof shape.
    pub fn count(&self, builder: &mut CountBuilder) -> (r: Result<(), ProofError>)
        requires
            old(builder).subpolynomials_count() + plan_subpolynomial_count(*self)
                <= usize::MAX,
            old(builder).intermediate_mles_count() + plan_mle_count(*self) <= usize::MAX,
        ensures
            r is Ok,
            final(builder).subpolynomials_count() == old(builder).subpolynomials_count()
                + plan_subpolynomial_count(*self),
            final(builder).intermediate_mles_count() == old(builder).intermediate_mles_count()
                + plan_mle_count(*self),
            final(builder).max_degree() == spec_max(
                old(builder).max_degree(),
                plan_max_degree(*self) as int,
            ),
        decreases plan_height(*self), 1nat,
    {
        match self {
            ProvableExprPlan::Column(_) => {
                proof {
                    builder.lemma_counts_nonneg();
                }
                Ok(())
            },
            ProvableExprPlan::Or(o) => o.count(builder),
        }
    }

    /// Compute the plain value this tree takes over the accessor's data; no
    /// proof side effects.
    pub fn result_evaluate<'a>(
        &self,
        table_length: usize,
        alloc: &'a bumpalo::Bump,
        accessor: &'a DataAccessor,
    ) -> (r: Column<'a>)
        requires
            plan_well_typed(*self, accessor.entries@, table_length as int),
        ensures
            r is Boolean,
            r->Boolean_0@ == plan_result_bools(*self, accessor.entries@),
        decreases plan_height(*self), 1nat,
    {
        match self {
            ProvableExprPlan::Column(c) => match accessor.get_boolean_column(&c.column_ref) {
                Some(v) => Column::Boolean(v),
                None => vstd::pervasive::unreached(),
            },
            ProvableExprPlan::Or(o) => o.result_evaluate(table_length, alloc, accessor),
        }
    }

    /// Compute the same value while recording every auxiliary column and
    /// constraint the proof needs, in fixed traversal order.
    pub fn prover_evaluate<'a>(
        &self,
        builder: &mut ProofBuilder,
        alloc: &'a bumpalo::Bump,
        accessor: &'a DataAccessor,
    ) -> (r: Column<'a>)
        requires
            builder_wf(*old(builder)),
            plan_well_typed(*self, accessor.entries@, old(builder).table_length as int),
        ensures
            builder_wf(*final(builder)),
            final(builder).table_length == old(builder).table_length,
            r is Boolean,
            r->Boolean_0@ == plan_result_bools(*self, accessor.entries@),
            mles_view(*final(builder)) == mles_view(*old(builder)) + plan_aux_columns(
                *self,
                accessor.entries@,
            ),
            final(builder).subpolynomials@.len() == old(builder).subpolynomials@.len()
                + plan_subpolynomial_count(*self),
            final(builder).subpolynomials@.subrange(
                0,
                old(builder).subpolynomials@.len() as int,
            ) == old(builder).subpolynomials@,
            forall|k: int|
                old(builder).subpolynomials@.len() <= k < final(builder).subpolynomials@.len()
                    ==> subpolynomial_holds(
                    #[trigger] final(builder).subpolynomials@[k],
                    old(builder).table_length as int,
                ),
        decreases plan_height(*self), 1nat,
    {
        match self {
            ProvableExprPlan::Column(c) => {
                let r = match accessor.get_boolean_column(&c.column_ref) {
                    Some(v) => Column::Boolean(v),
                    None => vstd::pervasive::unreached(),
                };
                proof {
                    assert(mles_view(*builder) =~= mles_view(*old(builder)) + plan_aux_columns(
                        *self,
                        accessor.entries@,
                    ));
                    assert(builder.subpolynomials@.subrange(
                        0,
                        old(builder).subpolynomials@.len() as int,
                    ) =~= old(builder).subpolynomials@);
                }
                r
            },
            ProvableExprPlan::Or(o) => o.prover_evaluate(builder, alloc, accessor),
        }
    }
}

impl OrExpr {
    /// The static type of the column an OR evaluates to.
    pub fn data_type(&self) -> (r: ColumnType)
        ensures
            r == ColumnType::Boolean,
    {
        ColumnType::Boolean
    }

    /// Tally this node's and its children's contribution to the proof shape:
    /// a pure function of tree shape, independent of any data.
    pub fn count(&self, builder: &mut CountBuilder) -> (r: Result<(), ProofError>)
        requires
            old(builder).subpolynomials_count() + plan_subpolynomial_count(
                ProvableExprPlan::Or(*self),
            ) <= usize::MAX,
            old(builder).intermediate_mles_count() + plan_mle_count(
                ProvableExprPlan::Or(*self),
            ) <= usize::MAX,
        ensures
            r is Ok,
            final(builder).subpolynomials_count() == old(builder).subpolynomials_count()
                + plan_subpolynomial_count(
                ProvableExprPlan::Or(*self),
            ),
            final(builder).intermediate_mles_count() == old(builder).intermediate_mles_count()
                + plan_mle_count(ProvableExprPlan::Or(*self)),
            final(builder).max_degree() == spec_max(
                old(builder).max_degree(),
                MAX_SUMCHECK_DEGREE as int,
            ),
        decreases plan_height(ProvableExprPlan::Or(*self)), 0nat,
    {
        self.lhs.count(builder)?;
        self.rhs.count(builder)?;
        count_or(builder);
        Ok(())
    }

    /// Compute the plain OR of the two subtrees' values; no proof side
    /// effects.
    pub fn result_evaluate<'a>(
        &self,
        table_length: usize,
        alloc: &'a bumpalo::Bump,
        accessor: &'a DataAccessor,
    ) -> (r: Column<'a>)
        requires
            plan_well_typed(
                ProvableExprPlan::Or(*self),
                accessor.entries@,
                table_length as int,
            ),
        ensures
            r is Boolean,
            r->Boolean_0@ == plan_result_bools(ProvableExprPlan::Or(*self), accessor.entries@),
        decreases plan_height(ProvableExprPlan::Or(*self)), 0nat,
    {
        let lhs_column = self.lhs.result_evaluate(table_length, alloc, accessor);
        let rhs_column = self.rhs.result_evaluate(table_length, alloc, accessor);
        let lhs = match lhs_column.as_boolean() {
            Some(v) => v,
            None => vstd::pervasive::unreached(),
        };
        let rhs = match rhs_column.as_boolean() {
            Some(v) => v,
            None => vstd::pervasive::unreached(),
        };
        proof {
            lemma_plan_result_len(*self.lhs, accessor.entries@, table_length as int);
            lemma_plan_result_len(*self.rhs, accessor.entries@, table_length as int);
        }
        Column::Boolean(result_evaluate_or(table_length, alloc, lhs, rhs))
    }

    /// Compute the OR while recording this subtree's auxiliary columns and
    /// constraints: children first, then this node's own conjunction column
    /// and identity constraint.
    pub fn prover_evaluate<'a>(
        &self,
        builder: &mut ProofBuilder,
        alloc: &'a bumpalo::Bump,
        accessor: &'a DataAccessor,
    ) -> (r: Column<'a>)
        requires
            builder_wf(*old(builder)),
            plan_well_typed(
                ProvableExprPlan::Or(*self),
                accessor.entries@,
                old(builder).table_length as int,
            ),
        ensures
            builder_wf(*final(builder)),
            final(builder).table_length == old(builder).table_length,
            r is Boolean,
            r->Boolean_0@ == plan_result_bools(ProvableExprPlan::Or(*self), accessor.entries@),
            mles_view(*final(builder)) == mles_view(*old(builder)) + plan_aux_columns(
                ProvableExprPlan::Or(*self),
                accessor.entries@,
            ),
            final(builder).subpolynomials@.len() == old(builder).subpolynomials@.len()
                + plan_subpolynomial_count(ProvableExprPlan::Or(*self)),
            final(builder).subpolynomials@.subrange(
                0,
                old(builder).subpolynomials@.len() as int,
            ) == old(builder).subpolynomials@,
            forall|k: int|
                old(builder).subpolynomials@.len() <= k < final(builder).subpolynomials@.len()
                    ==> subpolynomial_holds(
                    #[trigger] final(builder).subpolynomials@[k],
                    old(builder).table_length as int,
                ),
        decreases plan_height(ProvableExprPlan::Or(*self)), 0nat,
    {
        let ghost entries = accessor.entries@;
        let ghost n = old(builder).table_length as int;
        let ghost s0 = builder.subpolynomials@;
        let ghost mv0 = mles_view(*builder);
        let lhs_column = self.lhs.prover_evaluate(builder, alloc, accessor);
        let ghost s1 = builder.subpolynomials@;
        let rhs_column = self.rhs.prover_evaluate(builder, alloc, accessor);
        let ghost s2 = builder.subpolynomials@;
        let lhs = match lhs_column.as_boolean() {
            Some(v) => v,
            None => vstd::pervasive::unreached(),
        };
        let rhs = match rhs_column.as_boolean() {
            Some(v) => v,
            None => vstd::pervasive::unreached(),
        };
        proof {
            lemma_plan_result_len(*self.lhs, entries, n);
            lemma_plan_result_len(*self.rhs, entries, n);
        }
        let out = prover_evaluate_or(builder, alloc, lhs, rhs);
        proof {
            let s3 = builder.subpolynomials@;
            // the three appends assemble this node's predicted contribution
            assert(mles_view(*builder) =~= mv0 + plan_aux_columns(
                ProvableExprPlan::Or(*self),
                entries,
            ));
            assert forall|k: int| 0 <= k < s0.len() implies s3[k] == s0[k] by {
                assert(s1.subrange(0, s0.len() as int)[k] == s0[k]);
                assert(s2.subrange(0, s1.len() as int)[k] == s1[k]);
                assert(s3.subrange(0, s2.len() as int)[k] == s2[k]);
            }
            assert(s3.subrange(0, s0.len() as int) =~= s0);
            // every constraint this subtree added holds at every row
            crate::or_expr::lemma_or_subpolynomial_holds(s3.last(), lhs@, rhs@, n);
            assert forall|k: int| s0.len() <= k < s3.len() implies subpolynomial_holds(
                #[trigger] s3[k],
                n,
            ) by {
                if k < s1.len() {
                    assert(s2.subrange(0, s1.len() as int)[k] == s1[k]);
                    assert(s3.subrange(0, s2.len() as int)[k] == s2[k]);
                    assert(subpolynomial_holds(s1[k], n));
                } else if k < s2.len() {
                    assert(s3.subrange(0, s2.len() as int)[k] == s2[k]);
                    assert(subpolynomial_holds(s2[k], n));
                } else {
                    assert(s3[k] == s3.last());
                }
            }
        }
        Column::Boolean(out)
    }

    /// Replay the OR on the verifier side: children first, then this node's
    /// own pop-and-fold.
    pub fn verifier_evaluate(
        &self,
        builder: &mut VerificationBuilder,
        accessor: &CommitmentAccessor,
    ) -> (r: Result<Scalar, ProofError>)
        requires
            vbuilder_wf(*old(builder)),
            plan_covered(ProvableExprPlan::Or(*self), accessor.entries@),
        ensures
            vbuilder_wf(*final(builder)),
            final(builder).claimed_intermediate_mles == old(builder).claimed_intermediate_mles,
            final(builder).subpolynomial_multipliers == old(builder).subpolynomial_multipliers,
            final(builder).mle_evaluations == old(builder).mle_evaluations,
            old(builder).consumed_intermediate_mles + plan_mle_count(ProvableExprPlan::Or(*self))
                <= old(builder).claimed_intermediate_mles@.len() && old(
                builder,
            ).produced_subpolynomials + plan_subpolynomial_count(ProvableExprPlan::Or(*self)) <= old(
                builder,
            ).subpolynomial_multipliers@.len() ==> {
                let st = plan_verifier_state(
                    ProvableExprPlan::Or(*self),
                    accessor.entries@,
                    old(builder).claimed_intermediate_mles@,
                    old(builder).subpolynomial_multipliers@,
                    old(builder).mle_evaluations.random_evaluation.value(),
                    old(builder).consumed_intermediate_mles as int,
                    old(builder).produced_subpolynomials as int,
                    old(builder).sumcheck_evaluation.value(),
                );
                &&& r is Ok
                &&& r->Ok_0.value() == st.0
                &&& final(builder).consumed_intermediate_mles as int == st.1
                &&& final(builder).produced_subpolynomials as int == st.2
                &&& final(builder).sumcheck_evaluation.value() == st.3
            },
            !(old(builder).consumed_intermediate_mles + plan_mle_count(ProvableExprPlan::Or(*self))
                <= old(builder).claimed_intermediate_mles@.len() && old(
                builder,
            ).produced_subpolynomials + plan_subpolynomial_count(ProvableExprPlan::Or(*self)) <= old(
                builder,
            ).subpolynomial_multipliers@.len()) ==> r == Err::<Scalar, ProofError>(
                ProofError::ShapeMismatch,
            ),
        decreases plan_height(ProvableExprPlan::Or(*self)), 0nat,
    {
        let ghost centries = accessor.entries@;
        let ghost claimed = old(builder).claimed_intermediate_mles@;
        let ghost mults = old(builder).subpolynomial_multipliers@;
        let ghost rand = old(builder).mle_evaluations.random_evaluation.value();
        let ghost pos0 = old(builder).consumed_intermediate_mles as int;
        let ghost mpos0 = old(builder).produced_subpolynomials as int;
        let ghost agg0 = old(builder).sumcheck_evaluation.value();
        proof {
            lemma_plan_verifier_state_counts(
                *self.lhs,
                centries,
                claimed,
                mults,
                rand,
                pos0,
                mpos0,
                agg0,
            );
        }
        let lhs = match self.lhs.verifier_evaluate(builder, accessor) {
            Ok(v) => v,
            Err(e) => {
                return Err(e);
            },
        };
        let ghost left = plan_verifier_state(
            *self.lhs,
            centries,
            claimed,
            mults,
            rand,
            pos0,
            mpos0,
            agg0,
        );
        proof {
            lemma_plan_verifier_state_counts(
                *self.rhs,
                centries,
                claimed,
                mults,
                rand,
                left.1,
                left.2,
                left.3,
            );
        }
        let rhs = match self.rhs.verifier_evaluate(builder, accessor) {
            Ok(v) => v,
            Err(e) => {
                return Err(e);
            },
        };
        match verifier_evaluate_or(builder, &lhs, &rhs) {
            Ok(v) => Ok(v),
            Err(e) => Err(e),
        }
    }

    /// Record the identities of the columns both subtrees read.
    pub fn get_column_references(&self, columns: &mut Vec<ColumnRef>)
        ensures
            final(columns)@.subrange(0, old(columns)@.len() as int) == old(columns)@,
            old(columns)@.len() <= final(columns)@.len(),
            forall|j: int|
                0 <= j < plan_column_refs(ProvableExprPlan::Or(*self)).len() ==> contains_ref(
                    final(columns)@,
                    ref_key(#[trigger] plan_column_refs(ProvableExprPlan::Or(*self))[j]),
                ),
            forall|k: int|
                0 <= k < final(columns)@.len() ==> contains_ref(
                    old(columns)@,
                    ref_key(#[trigger] final(columns)@[k]),
                ) || contains_ref(
                    plan_column_refs(ProvableExprPlan::Or(*self)),
                    ref_key(final(columns)@[k]),
                ),
        decreases plan_height(ProvableExprPlan::Or(*self)), 0nat,
    {
        let ghost prior = columns@;
        self.lhs.get_column_references(columns);
        let ghost mid = columns@;
        self.rhs.get_column_references(columns);
        proof {
            let fin = columns@;
            let refs = plan_column_refs(ProvableExprPlan::Or(*self));
            let lrefs = plan_column_refs(*self.lhs);
            let rrefs = plan_column_refs(*self.rhs);
            // the prefix survives both insertions
            assert(fin.subrange(0, prior.len() as int) =~= prior);
            // every reference of either subtree is recorded in the final set
            assert forall|j: int| 0 <= j < refs.len() implies contains_ref(
                fin,
                ref_key(#[trigger] refs[j]),
            ) by {
                if j < lrefs.len() {
                    assert(refs[j] == lrefs[j]);
                    let i = choose|i: int|
                        0 <= i < mid.len() && ref_key(#[trigger] mid[i]) == ref_key(lrefs[j]);
                    assert(fin.subrange(0, mid.len() as int)[i] == mid[i]);
                    assert(ref_key(fin[i]) == ref_key(lrefs[j]));
                } else {
                    assert(refs[j] == rrefs[j - lrefs.len()]);
                }
            }
            // nothing beyond the prior entries and the subtrees' references
            assert forall|k: int| 0 <= k < fin.len() implies contains_ref(
                prior,
                ref_key(#[trigger] fin[k]),
            ) || contains_ref(refs, ref_key(fin[k])) by {
                if contains_ref(mid, ref_key(fin[k])) {
                    let i = choose|i: int|
                        0 <= i < mid.len() && ref_key(#[trigger] mid[i]) == ref_key(fin[k]);
                    if !contains_ref(prior, ref_key(mid[i])) {
                        assert(contains_ref(lrefs, ref_key(mid[i])));
                        let j = choose|j: int|
                            0 <= j < lrefs.len() && ref_key(#[trigger] lrefs[j]) == ref_key(
                                mid[i],
                            );
                        assert(refs[j] == lrefs[j]);
                    }
                } else {
                    assert(contains_ref(rrefs, ref_key(fin[k])));
                    let j = choose|j: int|
                        0 <= j < rrefs.len() && ref_key(#[trigger] rrefs[j]) == ref_key(fin[k]);
                    assert(refs[lrefs.len() + j] == rrefs[j]);
                }
            }
        }
    }
}

} // verus!
