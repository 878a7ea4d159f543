//! The prover-side accumulator.
//!
//! While the prover evaluates an expression tree it appends, in a fixed
//! traversal order, every intermediate auxiliary column and every sumcheck
//! constraint the proof needs. The position of each entry in its sequence is
//! part of the protocol: the verifier consumes its own queues in exactly the
//! same order. The accumulated sequences are what the external sumcheck
//! engine turns into the transmissible proof artifact.
use vstd::prelude::*;

verus! {

use crate::scalar::{
    bools_as_field,
    fadd,
    fmul,
    inner_product,
    values_of,
    Scalar,
};

/// Protocol-wide bound on the degree of a sumcheck constraint: the row
/// selector contributes one, so a term may hold at most two column factors.
pub const MAX_SUMCHECK_DEGREE: usize = 3;

/// The equality-to-zero flavour a constraint is checked under.
#[derive(Clone, Copy, Debug, PartialEq, Eq, Structural)]
pub enum SumcheckSubpolynomialType {
    /// The constraint must hold at every single row.
    Identity,
    /// Only the sum of the constraint over all rows must be zero.
    ZeroSum,
}

/// One weighted term of a constraint: a coefficient times the pointwise
/// product of its factor columns.
pub struct SumcheckTerm {
    pub coefficient: Scalar,
    pub factors: Vec<Vec<Scalar>>,
}

/// An algebraic constraint: a signed weighted sum of products of columns,
/// claimed to vanish in the sense of its kind.
pub struct SumcheckSubpolynomial {
    pub kind: SumcheckSubpolynomialType,
    pub terms: Vec<SumcheckTerm>,
}

/// The product of the factor columns at row `i`.
pub open spec fn factors_value_at(fs: Seq<Vec<Scalar>>, i: int) -> int
    decreases fs.len(),
{
    if fs.len() == 0 {
        1
    } else {
        fmul(factors_value_at(fs.drop_last(), i), fs.last()@[i].value())
    }
}

/// The value of one term at row `i`.
pub open spec fn term_value_at(t: SumcheckTerm, i: int) -> int {
    fmul(t.coefficient.value(), factors_value_at(t.factors@, i))
}

/// The value of a whole constraint at row `i`.
pub open spec fn terms_value_at(ts: Seq<SumcheckTerm>, i: int) -> int
    decreases ts.len(),
{
    if ts.len() == 0 {
        0
    } else {
        fadd(terms_value_at(ts.drop_last(), i), term_value_at(ts.last(), i))
    }
}

/// The sum of a constraint's values over the first `n` rows.
pub open spec fn terms_row_total(ts: Seq<SumcheckTerm>, n: int) -> int
    decreases n,
{
    if n <= 0 {
        0
    } else {
        fadd(terms_row_total(ts, n - 1), terms_value_at(ts, n - 1))
    }
}

/// The identity a constraint claims, over a table of `n` rows: an
/// `Identity` constraint vanishes at every row, a `ZeroSum` constraint
/// vanishes in total.
pub open spec fn subpolynomial_holds(p: SumcheckSubpolynomial, n: int) -> bool {
    match p.kind {
        SumcheckSubpolynomialType::Identity => forall|i: int|
            0 <= i < n ==> terms_value_at(p.terms@, i) == 0,
        SumcheckSubpolynomialType::ZeroSum => terms_row_total(p.terms@, n) == 0,
    }
}

/// Well-formedness of a constraint over a table of `n` rows: every factor
/// column spans the whole table and no term exceeds the degree bound.
pub open spec fn subpolynomial_wf(p: SumcheckSubpolynomial, n: int) -> bool {
    forall|j: int|
        0 <= j < p.terms@.len() ==> {
            &&& forall|f: int|
                0 <= f < (#[trigger] p.terms@[j]).factors@.len()
                    ==> (#[trigger] p.terms@[j].factors@[f])@.len() == n
            &&& p.terms@[j].factors@.len() + 1 <= MAX_SUMCHECK_DEGREE
        }
}

/// The opening of the product of the factor columns at the challenge point,
/// as the verifier reconstructs it from the individual column openings.
pub open spec fn factors_opening(fs: Seq<Vec<Scalar>>, w: Seq<int>) -> int
    decreases fs.len(),
{
    if fs.len() == 0 {
        1
    } else {
        fmul(factors_opening(fs.drop_last(), w), inner_product(values_of(fs.last()@), w))
    }
}

/// The opening of a whole constraint at the challenge point.
pub open spec fn terms_opening(ts: Seq<SumcheckTerm>, w: Seq<int>) -> int
    decreases ts.len(),
{
    if ts.len() == 0 {
        0
    } else {
        fadd(
            terms_opening(ts.drop_last(), w),
            fmul(ts.last().coefficient.value(), factors_opening(ts.last().factors@, w)),
        )
    }
}

/// Prover-side accumulator of auxiliary columns and constraints for one
/// proof. Append order is part of the protocol.
pub struct ProofBuilder {
    pub table_length: usize,
    pub mles: Vec<Vec<Scalar>>,
    pub subpolynomials: Vec<SumcheckSubpolynomial>,
}

/// Well-formedness of the accumulator: every auxiliary column spans the
/// table and every constraint is well-formed over it.
pub open spec fn builder_wf(b: ProofBuilder) -> bool {
    &&& forall|k: int|
        0 <= k < b.mles@.len() ==> (#[trigger] b.mles@[k])@.len() == b.table_length as int
    &&& forall|k: int|
        0 <= k < b.subpolynomials@.len() ==> subpolynomial_wf(
            #[trigger] b.subpolynomials@[k],
            b.table_length as int,
        )
}

/// The field view of the accumulated auxiliary columns, in append order.
pub open spec fn mles_view(b: ProofBuilder) -> Seq<Seq<int>> {
    Seq::new(b.mles@.len(), |k: int| values_of(b.mles@[k]@))
}

impl ProofBuilder {
    pub fn new(table_length: usize) -> (r: ProofBuilder)
        ensures
            builder_wf(r),
            r.table_length == table_length,
            r.mles@.len() == 0,
            r.subpolynomials@.len() == 0,
    {
        ProofBuilder { table_length, mles: Vec::new(), subpolynomials: Vec::new() }
    }

    /// Append one boolean auxiliary column, recorded in its field encoding.
    pub fn produce_intermediate_mle(&mut self, column: &[bool])
        requires
            builder_wf(*old(self)),
            column@.len() == old(self).table_length as int,
        ensures
            builder_wf(*final(self)),
            final(self).table_length == old(self).table_length,
            final(self).subpolynomials@ == old(self).subpolynomials@,
            mles_view(*final(self)) == mles_view(*old(self)).push(bools_as_field(column@)),
            final(self).mles@.len() == old(self).mles@.len() + 1,
    {
        let converted = bools_to_scalars(column);
        self.mles.push(converted);
        proof {
            assert(mles_view(*self) =~= mles_view(*old(self)).push(bools_as_field(column@)));
        }
    }

    /// Append one constraint.
    pub fn produce_sumcheck_subpolynomial(
        &mut self,
        kind: SumcheckSubpolynomialType,
        terms: Vec<SumcheckTerm>,
    )
        requires
            builder_wf(*old(self)),
            subpolynomial_wf((SumcheckSubpolynomial { kind, terms }), old(self).table_length as int),
        ensures
            builder_wf(*final(self)),
            final(self).table_length == old(self).table_length,
            final(self).mles@ == old(self).mles@,
            final(self).subpolynomials@ == old(self).subpolynomials@.push(
                (SumcheckSubpolynomial { kind, terms }),
            ),
    {
        self.subpolynomials.push(SumcheckSubpolynomial { kind, terms });
    }
}

/// The field encoding of a boolean column.
pub fn bools_to_scalars(column: &[bool]) -> (r: Vec<Scalar>)
    ensures
        r@.len() == column@.len(),
        values_of(r@) == bools_as_field(column@),
{
    let n = column.len();
    let mut out: Vec<Scalar> = Vec::new();
    let mut i: usize = 0;
    while i < n
        invariant
            out@.len() == i,
            i <= n,
            n == column@.len(),
            forall|j: int|
                0 <= j < i ==> (#[trigger] out@[j]).value() == crate::scalar::bool_to_field(
                    column@[j],
                ),
        decreases n - i,
    {
        let b = *vstd::slice::slice_index_get(column, i);
        out.push(Scalar::from_bool(b));
        i = i + 1;
    }
    proof {
        assert(values_of(out@) =~= bools_as_field(column@));
    }
    out
}

} // verus!
