//! Minimax polynomial approximation of sine on [0, pi/2].
//!
//! The library works on IEEE-754 binary64 scalars carried as their raw
//! `u64` bit patterns, so that every structural step of the computation is
//! verified: polynomial evaluation order, the derivative/integral
//! transforms, the conjugate-root multiplication, the boundary-constraint
//! refinement walk, and the extremum scan's bookkeeping.  The scalar
//! arithmetic itself is performed by a software IEEE-754 implementation
//! behind a small set of trusted wrappers (see `fp`), and the bracketing
//! root-finder and derivative-free minimizer are external collaborators
//! that callers drive between calls into this library.

pub mod fp;
pub mod polynomial;
pub mod solver;
pub mod extremum;
