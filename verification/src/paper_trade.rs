use vstd::prelude::*;

verus! {

/// Why a paper trade was exited.
#[derive(Debug, Clone, Copy, PartialEq, Eq, Structural)]
pub enum ExitReason {
    TakeProfit,
    StopLoss,
    BarLimit,
}

/// Exit rule of the paper trader: take-profit first, then stop-loss, then the
/// holding-time limit; `None` keeps the position open.
pub open spec fn exit_rule(
    take_profit_hit: bool,
    stop_loss_hit: bool,
    bars_held: usize,
    max_hold_bars: usize,
) -> Option<ExitReason> {
    if take_profit_hit {
        Some(ExitReason::TakeProfit)
    } else if stop_loss_hit {
        Some(ExitReason::StopLoss)
    } else if bars_held >= max_hold_bars {
        Some(ExitReason::BarLimit)
    } else {
        None
    }
}

/// Decides whether and why an open paper position exits on this bar.
pub fn exit_reason(
    take_profit_hit: bool,
    stop_loss_hit: bool,
    bars_held: usize,
    max_hold_bars: usize,
) -> (r: Option<ExitReason>)
    ensures
        r == exit_rule(take_profit_hit, stop_loss_hit, bars_held, max_hold_bars),
        take_profit_hit ==> r == Some(ExitReason::TakeProfit),
        !take_profit_hit && stop_loss_hit ==> r == Some(ExitReason::StopLoss),
        !take_profit_hit && !stop_loss_hit && bars_held >= max_hold_bars ==> r == Some(
            ExitReason::BarLimit,
        ),
        r is None <==> (!take_profit_hit && !stop_loss_hit && bars_held < max_hold_bars),
{
    if take_profit_hit {
        Some(ExitReason::TakeProfit)
    } else if stop_loss_hit {
        Some(ExitReason::StopLoss)
    } else if bars_held >= max_hold_bars {
        Some(ExitReason::BarLimit)
    } else {
        None
    }
}

/// Once a position has been held `max_hold_bars` bars it is exited whatever
/// the price does.
pub proof fn lemma_hold_limit_forces_exit(
    take_profit_hit: bool,
    stop_loss_hit: bool,
    bars_held: usize,
    max_hold_bars: usize,
)
    requires
        bars_held >= max_hold_bars,
    ensures
        exit_rule(take_profit_hit, stop_loss_hit, bars_held, max_hold_bars) is Some,
{
}

/// Law of the paper trader's exit rule, for every holding time and limit: a
/// hit take-profit exits as take-profit; otherwise a hit stop-loss exits as
/// stop-loss; otherwise reaching the limit exits as bar limit; the position
/// stays open only when none of the three holds.
pub proof fn lemma_exit_rule_priority(
    take_profit_hit: bool,
    stop_loss_hit: bool,
    bars_held: usize,
    max_hold_bars: usize,
)
    ensures
        take_profit_hit ==> exit_rule(take_profit_hit, stop_loss_hit, bars_held, max_hold_bars)
            == Some(ExitReason::TakeProfit),
        !take_profit_hit && stop_loss_hit ==> exit_rule(
            take_profit_hit,
            stop_loss_hit,
            bars_held,
            max_hold_bars,
        ) == Some(ExitReason::StopLoss),
        !take_profit_hit && !stop_loss_hit && bars_held >= max_hold_bars ==> exit_rule(
            take_profit_hit,
            stop_loss_hit,
            bars_held,
            max_hold_bars,
        ) == Some(ExitReason::BarLimit),
        exit_rule(take_profit_hit, stop_loss_hit, bars_held, max_hold_bars) is None <==> (
        !take_profit_hit && !stop_loss_hit && bars_held < max_hold_bars),
{
}

} // verus!
