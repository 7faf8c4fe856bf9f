use vstd::prelude::*;

verus! {

/// Why a simulated position was closed.
#[derive(Debug, Clone, Copy, PartialEq, Eq, Structural)]
pub enum CloseReason {
    TakeProfit,
    StopLoss,
    BarLimit,
    Manual,
}

/// Exit rule of the paper engine: take-profit first, then stop-loss, then
/// the holding-time limit; `None` keeps the position open.
pub open spec fn close_rule(
    take_profit_hit: bool,
    stop_loss_hit: bool,
    bars_held: u32,
    max_hold_bars: u32,
) -> Option<CloseReason> {
    if take_profit_hit {
        Some(CloseReason::TakeProfit)
    } else if stop_loss_hit {
        Some(CloseReason::StopLoss)
    } else if bars_held >= max_hold_bars {
        Some(CloseReason::BarLimit)
    } else {
        None
    }
}

/// Decides whether and why an open position closes on this bar.
pub fn close_reason(
    take_profit_hit: bool,
    stop_loss_hit: bool,
    bars_held: u32,
    max_hold_bars: u32,
) -> (r: Option<CloseReason>)
    ensures
        r == close_rule(take_profit_hit, stop_loss_hit, bars_held, max_hold_bars),
        r != Some(CloseReason::Manual),
        take_profit_hit ==> r == Some(CloseReason::TakeProfit),
        !take_profit_hit && stop_loss_hit ==> r == Some(CloseReason::StopLoss),
        !take_profit_hit && !stop_loss_hit && bars_held >= max_hold_bars ==> r == Some(
            CloseReason::BarLimit,
        ),
        r is None <==> (!take_profit_hit && !stop_loss_hit && bars_held < max_hold_bars),
{
    if take_profit_hit {
        Some(CloseReason::TakeProfit)
    } else if stop_loss_hit {
        Some(CloseReason::StopLoss)
    } else if bars_held >= max_hold_bars {
        Some(CloseReason::BarLimit)
    } else {
        None
    }
}

/// No position outlives the holding limit: once it has been held
/// `max_hold_bars` bars, the exit rule closes it whatever the prices do.
pub proof fn lemma_bar_limit_forces_close(
    take_profit_hit: bool,
    stop_loss_hit: bool,
    bars_held: u32,
    max_hold_bars: u32,
)
    requires
        bars_held >= max_hold_bars,
    ensures
        close_rule(take_profit_hit, stop_loss_hit, bars_held, max_hold_bars) is Some,
{
}

/// Law of the paper engine's exit rule, for every holding time and limit: a
/// hit take-profit closes as take-profit; otherwise a hit stop-loss closes as
/// stop-loss; otherwise reaching the limit closes as bar limit; the position
/// stays open only when none of the three holds.  A manual close never comes
/// from the rule.
pub proof fn lemma_close_rule_priority(
    take_profit_hit: bool,
    stop_loss_hit: bool,
    bars_held: u32,
    max_hold_bars: u32,
)
    ensures
        take_profit_hit ==> close_rule(take_profit_hit, stop_loss_hit, bars_held, max_hold_bars)
            == Some(CloseReason::TakeProfit),
        !take_profit_hit && stop_loss_hit ==> close_rule(
            take_profit_hit,
            stop_loss_hit,
            bars_held,
            max_hold_bars,
        ) == Some(CloseReason::StopLoss),
        !take_profit_hit && !stop_loss_hit && bars_held >= max_hold_bars ==> close_rule(
            take_profit_hit,
            stop_loss_hit,
            bars_held,
            max_hold_bars,
        ) == Some(CloseReason::BarLimit),
        close_rule(take_profit_hit, stop_loss_hit, bars_held, max_hold_bars) is None <==> (
        !take_profit_hit && !stop_loss_hit && bars_held < max_hold_bars),
        close_rule(take_profit_hit, stop_loss_hit, bars_held, max_hold_bars) != Some(
            CloseReason::Manual,
        ),
{
}

} // verus!
