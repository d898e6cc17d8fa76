//! Streaming attention actors: the stages of a spatial accelerator that
//! computes softmax-weighted attention, each a state machine that consumes
//! scalar stream elements in arrival order, applies its fixed computation and
//! says what to emit and when. A dataflow scheduler moves the elements
//! between actors; the element type supplies the arithmetic.
use vstd::prelude::*;

pub mod scalar;
pub mod timing;
pub mod reduce;
pub mod elementwise;
pub mod accumulate;
pub mod running;
pub mod score;

pub use accumulate::MatVecProd;
pub use elementwise::{Binary, BinaryOp};
pub use reduce::{ReduceOp, ReduceOpType};
pub use running::{IncrMax, IncrOutP, IncrSum, Rescale};
pub use scalar::{Arith, BinaryOpType, Exp, MinMax};
pub use score::QKTExp;
pub use timing::{all_ready, Emission, Pacer};

verus! {

/// Why an actor stopped before running to the end of its loop bounds.
#[derive(Clone, Copy, Debug, PartialEq, Eq, Structural)]
pub enum ActorError {
    /// An input stream ran dry before the loop bounds were met.
    ProtocolViolation,
    /// An operator was applied outside its domain (a zero divisor, an exponential overflow).
    DomainError,
}

} // verus!
