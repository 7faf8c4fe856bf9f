use vstd::prelude::*;
use crate::strategy::Signal;
use crate::regime::Regime;

verus! {

/// Decision output.
#[derive(Debug, Clone, Copy, PartialEq, Eq, Structural)]
pub enum Decision {
    Trade,
    Skip,
}

/// The trade gate: trade only on a signal, with the expected value above its
/// threshold, the win probability at or above its minimum, and outside a
/// high-volatility regime.
pub open spec fn decision_rule(
    signal: Signal,
    ev_above_threshold: bool,
    p_win_sufficient: bool,
    regime: Regime,
) -> Decision {
    if signal != Signal::Neutral && ev_above_threshold && p_win_sufficient && regime
        != Regime::HighVolatility {
        Decision::Trade
    } else {
        Decision::Skip
    }
}

/// Applies the trade gate to a signal, the outcomes of the expected-value and
/// win-probability checks, and the market regime.
pub fn decide_gate(
    signal: Signal,
    ev_above_threshold: bool,
    p_win_sufficient: bool,
    regime: Regime,
) -> (r: Decision)
    ensures
        r == decision_rule(signal, ev_above_threshold, p_win_sufficient, regime),
        r == Decision::Trade ==> signal != Signal::Neutral,
        r == Decision::Trade ==> ev_above_threshold,
        r == Decision::Trade ==> p_win_sufficient,
        r == Decision::Trade ==> regime != Regime::HighVolatility,
        (signal != Signal::Neutral && ev_above_threshold && p_win_sufficient && regime
            != Regime::HighVolatility) ==> r == Decision::Trade,
{
    if signal == Signal::Neutral {
        return Decision::Skip;
    }
    if !ev_above_threshold {
        return Decision::Skip;
    }
    if !p_win_sufficient {
        return Decision::Skip;
    }
    if regime == Regime::HighVolatility {
        return Decision::Skip;
    }
    Decision::Trade
}

/// A trade decision always carries a signal, so it always has a side.
pub proof fn lemma_trade_has_signal(
    signal: Signal,
    ev_above_threshold: bool,
    p_win_sufficient: bool,
    regime: Regime,
)
    requires
        decision_rule(signal, ev_above_threshold, p_win_sufficient, regime) == Decision::Trade,
    ensures
        signal != Signal::Neutral,
        crate::execution::side_of(signal) is Some,
        regime != Regime::HighVolatility,
{
}

/// Law of the trade gate: it trades exactly when there is a signal (up or
/// down alike), the expected value is above its threshold, the win
/// probability is at or above its minimum, and the regime is not high
/// volatility; a single failed check makes it skip.
pub proof fn lemma_gate_trades_iff_all_checks_pass(
    signal: Signal,
    ev_above_threshold: bool,
    p_win_sufficient: bool,
    regime: Regime,
)
    ensures
        (decision_rule(signal, ev_above_threshold, p_win_sufficient, regime) == Decision::Trade)
            <==> (signal != Signal::Neutral && ev_above_threshold && p_win_sufficient && regime
            != Regime::HighVolatility),
        !ev_above_threshold ==> decision_rule(signal, ev_above_threshold, p_win_sufficient, regime)
            == Decision::Skip,
        !p_win_sufficient ==> decision_rule(signal, ev_above_threshold, p_win_sufficient, regime)
            == Decision::Skip,
        decision_rule(Signal::Up, ev_above_threshold, p_win_sufficient, regime) == decision_rule(
            Signal::Down,
            ev_above_threshold,
            p_win_sufficient,
            regime,
        ),
{
}

} // verus!
