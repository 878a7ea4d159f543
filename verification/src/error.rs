//! Typed failures of the proof passes.
use vstd::prelude::*;

verus! {

/// A recoverable failure of the counting or verifying pass.
///
/// A shape mismatch is detected and rejected before any cryptographic
/// check; a verification failure means the algebra itself did not hold.
#[derive(Clone, Copy, Debug, PartialEq, Eq, Structural)]
pub enum ProofError {
    /// The proof artifact supplies fewer auxiliary evaluations or constraint
    /// slots than the expression tree consumes, or leaves some unconsumed:
    /// the predicted and the actual proof shape disagree.
    ShapeMismatch,
    /// The final aggregate or the committed-result equality does not hold.
    VerificationError,
    /// Two column operands of one evaluation disagree on the table length.
    LengthMismatch,
}

} // verus!
