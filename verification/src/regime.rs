use vstd::prelude::*;

verus! {

/// Market regime classification.
#[derive(Debug, Clone, Copy, PartialEq, Eq, Structural)]
pub enum Regime {
    Trending,
    Sideways,
    HighVolatility,
    LowVolatility,
}

} // verus!
