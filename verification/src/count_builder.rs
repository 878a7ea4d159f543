//! The shape-only counting pass.
//!
//! Before any cryptographic work, the expression tree is walked once to
//! predict how many auxiliary values and constraints the prover will emit
//! and the highest constraint degree among them. The prediction sizes the
//! prover and verifier buffers and lets a shape desynchronization be
//! rejected early.
use vstd::prelude::*;

verus! {

/// Pure counters for the shape of a proof: no evaluation is performed.
pub struct CountBuilder {
    subpolynomials: usize,
    intermediate_mles: usize,
    degree: usize,
}

impl CountBuilder {
    /// Number of sumcheck constraints counted so far.
    pub closed spec fn subpolynomials_count(self) -> int {
        self.subpolynomials as int
    }

    /// Number of intermediate auxiliary columns counted so far.
    pub closed spec fn intermediate_mles_count(self) -> int {
        self.intermediate_mles as int
    }

    /// Running maximum constraint degree.
    pub closed spec fn max_degree(self) -> int {
        self.degree as int
    }

    /// Counters never go below zero.
    pub proof fn lemma_counts_nonneg(self)
        ensures
            self.subpolynomials_count() >= 0,
            self.intermediate_mles_count() >= 0,
            self.max_degree() >= 0,
    {
    }

    pub fn new() -> (r: CountBuilder)
        ensures
            r.subpolynomials_count() == 0,
            r.intermediate_mles_count() == 0,
            r.max_degree() == 0,
    {
        CountBuilder { subpolynomials: 0, intermediate_mles: 0, degree: 0 }
    }

    /// Record that `n` more sumcheck constraints will be produced.
    pub fn count_subpolynomials(&mut self, n: usize)
        requires
            old(self).subpolynomials_count() + n <= usize::MAX,
        ensures
            final(self).subpolynomials_count() == old(self).subpolynomials_count() + n,
            final(self).intermediate_mles_count() == old(self).intermediate_mles_count(),
            final(self).max_degree() == old(self).max_degree(),
    {
        self.subpolynomials = self.subpolynomials + n;
    }

    /// Record that `n` more intermediate auxiliary columns will be produced.
    pub fn count_intermediate_mles(&mut self, n: usize)
        requires
            old(self).intermediate_mles_count() + n <= usize::MAX,
        ensures
            final(self).intermediate_mles_count() == old(self).intermediate_mles_count() + n,
            final(self).subpolynomials_count() == old(self).subpolynomials_count(),
            final(self).max_degree() == old(self).max_degree(),
    {
        self.intermediate_mles = self.intermediate_mles + n;
    }

    /// Record that a constraint of degree `d` will be produced: the running
    /// maximum is raised to `d` where it was lower.
    pub fn count_degree(&mut self, d: usize)
        ensures
            final(self).max_degree() == if d as int > old(self).max_degree() {
                d as int
            } else {
                old(self).max_degree()
            },
            final(self).subpolynomials_count() == old(self).subpolynomials_count(),
            final(self).intermediate_mles_count() == old(self).intermediate_mles_count(),
    {
        if d > self.degree {
            self.degree = d;
        }
    }

    /// The predicted number of sumcheck constraints.
    pub fn subpolynomials(&self) -> (r: usize)
        ensures
            r as int == self.subpolynomials_count(),
    {
        self.subpolynomials
    }

    /// The predicted number of intermediate auxiliary columns.
    pub fn intermediate_mles(&self) -> (r: usize)
        ensures
            r as int == self.intermediate_mles_count(),
    {
        self.intermediate_mles
    }

    /// The predicted maximum constraint degree.
    pub fn degree(&self) -> (r: usize)
        ensures
            r as int == self.max_degree(),
    {
        self.degree
    }
}

} // verus!
