use vstd::prelude::*;

verus! {

/// Trading signal produced by the strategy.
#[derive(Debug, Clone, Copy, PartialEq, Eq, Structural)]
pub enum Signal {
    Up,
    Down,
    Neutral,
}

/// The signal rule: `Down` when the bull-trap pattern is complete (fake
/// breakout above, bearish rejection wick, break of structure down); else
/// `Up` when the bear-trap pattern is complete (fake breakout below, bullish
/// rejection wick, break of structure up); else `Neutral`.
pub open spec fn signal_rule(
    breakout_above: bool,
    bearish_rejection: bool,
    bos_down: bool,
    breakout_below: bool,
    bullish_rejection: bool,
    bos_up: bool,
) -> Signal {
    if breakout_above && bearish_rejection && bos_down {
        Signal::Down
    } else if breakout_below && bullish_rejection && bos_up {
        Signal::Up
    } else {
        Signal::Neutral
    }
}

/// Combines the six candle-pattern checks of the strategy into one signal.
/// The bearish pattern takes precedence when both are complete.
pub fn combine_conditions(
    breakout_above: bool,
    bearish_rejection: bool,
    bos_down: bool,
    breakout_below: bool,
    bullish_rejection: bool,
    bos_up: bool,
) -> (r: Signal)
    ensures
        r == signal_rule(
            breakout_above,
            bearish_rejection,
            bos_down,
            breakout_below,
            bullish_rejection,
            bos_up,
        ),
        r == Signal::Down <==> (breakout_above && bearish_rejection && bos_down),
        r == Signal::Up <==> (!(breakout_above && bearish_rejection && bos_down) && breakout_below
            && bullish_rejection && bos_up),
{
    if breakout_above && bearish_rejection && bos_down {
        return Signal::Down;
    }
    if breakout_below && bullish_rejection && bos_up {
        return Signal::Up;
    }
    Signal::Neutral
}

/// True when the 1m signal, or the signal of a completed 5m or 15m bar, is
/// not `Neutral`.
pub fn any_timeframe_signal(tf1m: Signal, tf5m: Option<Signal>, tf15m: Option<Signal>) -> (r: bool)
    ensures
        r == (tf1m != Signal::Neutral || (tf5m is Some && tf5m->0 != Signal::Neutral) || (
        tf15m is Some && tf15m->0 != Signal::Neutral)),
{
    let five = match tf5m {
        Some(s) => s != Signal::Neutral,
        None => false,
    };
    let fifteen = match tf15m {
        Some(s) => s != Signal::Neutral,
        None => false,
    };
    tf1m != Signal::Neutral || five || fifteen
}

/// A signal is produced only when one of the two patterns is complete in
/// all three of its checks: a missing check always yields `Signal::Neutral`.
pub proof fn lemma_incomplete_pattern_gives_none(
    breakout_above: bool,
    bearish_rejection: bool,
    bos_down: bool,
    breakout_below: bool,
    bullish_rejection: bool,
    bos_up: bool,
)
    requires
        !(breakout_above && bearish_rejection && bos_down),
        !(breakout_below && bullish_rejection && bos_up),
    ensures
        signal_rule(
            breakout_above,
            bearish_rejection,
            bos_down,
            breakout_below,
            bullish_rejection,
            bos_up,
        ) == Signal::Neutral,
{
}

} // verus!
