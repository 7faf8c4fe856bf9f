use vstd::prelude::*;
use crate::strategy::Signal;

verus! {

/// Side of a binary-market trade.
#[derive(Debug, Clone, Copy, PartialEq, Eq, Structural)]
pub enum Side {
    Yes,
    No,
}

/// The side a signal trades: `Up` buys YES, `Down` buys NO, `None` trades nothing.
pub open spec fn side_of(signal: Signal) -> Option<Side> {
    match signal {
        Signal::Up => Some(Side::Yes),
        Signal::Down => Some(Side::No),
        Signal::Neutral => None,
    }
}

impl Side {
    /// Maps a strategy signal to the side to buy.
    pub fn from_signal(signal: Signal) -> (r: Option<Self>)
        ensures
            r == side_of(signal),
            r is None <==> signal == Signal::Neutral,
            signal == Signal::Up ==> r == Some(Side::Yes),
            signal == Signal::Down ==> r == Some(Side::No),
    {
        match signal {
            Signal::Up => Some(Side::Yes),
            Signal::Down => Some(Side::No),
            Signal::Neutral => None,
        }
    }
}

/// Opposite signals trade opposite sides, and every side is traded by
/// exactly one signal.
pub proof fn lemma_side_of_injective(a: Signal, b: Signal)
    requires
        side_of(a) is Some,
        side_of(a) == side_of(b),
    ensures
        a == b,
{
}

} // verus!
