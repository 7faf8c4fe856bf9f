use ultra_sniper::mode::Mode;
use ultra_sniper::feed::{
    closed_candle_index, market_poll_due, BinanceFeed, FeedError, Interval, PolymarketFeed,
};
use ultra_sniper::aggregator::{BarWindow, Timeframe};
use ultra_sniper::simulation::{close_reason, CloseReason};
use ultra_sniper::paper_trade::{exit_reason, ExitReason};
use ultra_sniper::text::append_decimal;
use ultra_sniper::reconnect::{Attempt, Reconnect};

#[test]
fn default_is_paper() {
    assert_eq!(Mode::default(), Mode::Paper);
}

#[test]
fn paper_is_paper() {
    assert!(Mode::Paper.is_paper());
    assert!(!Mode::Paper.is_live());
}

#[test]
fn live_is_live() {
    assert!(Mode::Live.is_live());
    assert!(!Mode::Live.is_paper());
}

#[test]
fn paper_label() {
    assert_eq!(Mode::Paper.label(), "PAPER");
}

#[test]
fn live_label() {
    assert_eq!(Mode::Live.label(), "LIVE");
}

#[test]
fn display_paper() {
    assert_eq!(Mode::Paper.display(), "PAPER");
}

#[test]
fn display_live() {
    assert_eq!(Mode::Live.display(), "LIVE");
}

#[test]
fn equality() {
    assert_eq!(Mode::Paper, Mode::Paper);
    assert_ne!(Mode::Paper, Mode::Live);
}

#[test]
fn url_contains_symbol_and_interval() {
    let feed = BinanceFeed::new("btcusdt", Interval::M5);
    let url = feed.url(100);
    assert!(url.contains("BTCUSDT"));
    assert!(url.contains("5m"));
    assert!(url.contains("limit=100"));
}

#[test]
fn url_contains_condition_id() {
    let feed = PolymarketFeed::new();
    let url = feed.url("0xabc123");
    assert!(url.contains("0xabc123"));
    assert!(url.contains("conditionIds"));
}

#[test]
fn binance_url_exact() {
    let feed = BinanceFeed::new("ethusdt", Interval::H1);
    assert_eq!(feed.symbol, "ETHUSDT");
    assert_eq!(feed.interval, Interval::H1);
    assert_eq!(
        feed.url(2),
        "https://api.binance.com/api/v3/klines?symbol=ETHUSDT&interval=1h&limit=2"
    );
}

#[test]
fn binance_url_with_base_url() {
    let feed = BinanceFeed::new("BTCUSDT", Interval::M1).with_base_url("http://localhost:8080");
    assert_eq!(
        feed.url(0),
        "http://localhost:8080/api/v3/klines?symbol=BTCUSDT&interval=1m&limit=0"
    );
    assert_eq!(
        feed.url(4_294_967_295),
        "http://localhost:8080/api/v3/klines?symbol=BTCUSDT&interval=1m&limit=4294967295"
    );
}

#[test]
fn polymarket_url_exact_and_default() {
    let feed = PolymarketFeed::default();
    assert_eq!(feed.url("0x1"), "https://gamma-api.polymarket.com/markets?conditionIds=0x1");
    let local = PolymarketFeed::with_base_url("http://mock");
    assert_eq!(local.url("abc"), "http://mock/markets?conditionIds=abc");
}

#[test]
fn interval_codes() {
    assert_eq!(Interval::M1.as_str(), "1m");
    assert_eq!(Interval::M5.as_str(), "5m");
    assert_eq!(Interval::M15.as_str(), "15m");
    assert_eq!(Interval::H1.as_str(), "1h");
}

#[test]
fn feed_error_messages() {
    assert_eq!(FeedError::Http("timeout".to_string()).message(), "HTTP error: timeout");
    assert_eq!(FeedError::Parse("bad".to_string()).message(), "Parse error: bad");
    assert_eq!(FeedError::Empty.message(), "Empty response");
}

#[test]
fn decimal_formatting() {
    let mut s = String::from("n=");
    append_decimal(&mut s, 0);
    assert_eq!(s, "n=0");
    let mut t = String::new();
    append_decimal(&mut t, 1_234_509);
    assert_eq!(t, "1234509");
}

#[test]
fn timeframe_periods() {
    assert_eq!(Timeframe::M5.period(), 5);
    assert_eq!(Timeframe::M15.period(), 15);
}

#[test]
fn window_returns_none_before_period() {
    let mut w: BarWindow<u64> = BarWindow::new(Timeframe::M5.period());
    for i in 0..4 {
        assert!(w.push(i).is_none(), "expected None on bar {i}");
    }
    assert_eq!(w.count(), 4);
}

#[test]
fn window_returns_bars_on_period_and_resets() {
    let mut w: BarWindow<u64> = BarWindow::new(5);
    let mut completed = Vec::new();
    for i in 0..12u64 {
        if let Some(bars) = w.push(i) {
            completed.push(bars);
        }
    }
    // Law: a period completes exactly on every 5th push; 12 % 5 bars pend.
    assert_eq!(completed, vec![vec![0, 1, 2, 3, 4], vec![5, 6, 7, 8, 9]]);
    assert_eq!(w.count(), 2);
    assert_eq!(w.period(), 5);
}

#[test]
fn close_reason_priority() {
    assert_eq!(close_reason(true, true, 9, 5), Some(CloseReason::TakeProfit));
    assert_eq!(close_reason(false, true, 9, 5), Some(CloseReason::StopLoss));
    assert_eq!(close_reason(false, false, 5, 5), Some(CloseReason::BarLimit));
    assert_eq!(close_reason(false, false, 4, 5), None);
}

#[test]
fn exit_reason_priority() {
    assert_eq!(exit_reason(true, false, 0, 10), Some(ExitReason::TakeProfit));
    assert_eq!(exit_reason(false, true, 0, 10), Some(ExitReason::StopLoss));
    assert_eq!(exit_reason(false, false, 10, 10), Some(ExitReason::BarLimit));
    assert_eq!(exit_reason(false, false, 3, 10), None);
}

#[test]
fn reconnect_schedule_doubles_to_cap_then_gives_up() {
    let mut s = Reconnect::new(8);
    let mut waits = Vec::new();
    loop {
        match s.next_attempt() {
            Attempt::Connect { wait_secs } => waits.push(wait_secs),
            Attempt::GiveUp => break,
        }
    }
    // 1 first attempt + 8 retries; delays double from 1s and stop at 30s.
    assert_eq!(waits, vec![0, 1, 2, 4, 8, 16, 30, 30, 30]);
    assert_eq!(s.next_attempt(), Attempt::GiveUp);
}

#[test]
fn reconnect_resets_delay_after_success() {
    let mut s = Reconnect::new(10);
    assert_eq!(s.next_attempt(), Attempt::Connect { wait_secs: 0 });
    assert_eq!(s.next_attempt(), Attempt::Connect { wait_secs: 1 });
    assert_eq!(s.next_attempt(), Attempt::Connect { wait_secs: 2 });
    s.connected();
    assert_eq!(s.next_attempt(), Attempt::Connect { wait_secs: 1 });
    assert_eq!(s.next_attempt(), Attempt::Connect { wait_secs: 2 });
}

#[test]
fn reconnect_zero_retries_connects_once() {
    let mut s = Reconnect::new(0);
    assert_eq!(s.next_attempt(), Attempt::Connect { wait_secs: 0 });
    assert_eq!(s.next_attempt(), Attempt::GiveUp);
}

#[test]
fn closed_candle_is_second_to_last() {
    assert_eq!(closed_candle_index(1), 0);
    assert_eq!(closed_candle_index(2), 0);
    assert_eq!(closed_candle_index(50), 48);
}

#[test]
fn market_poll_schedule() {
    assert!(!market_poll_due(false, 5, 5));
    assert!(!market_poll_due(false, 5, 0));
    assert!(market_poll_due(true, 5, 5));
    assert!(market_poll_due(true, 10, 5));
    assert!(!market_poll_due(true, 7, 5));
}

#[test]
fn kline_stream_url_lowercases_symbol() {
    assert_eq!(
        ultra_sniper::feed::kline_stream_url("BTCUSDT"),
        "wss://stream.binance.com:9443/ws/btcusdt@kline_1m"
    );
}

#[test]
fn new_bar_only_after_last_processed() {
    assert!(ultra_sniper::feed::is_new_bar(120, 60));
    assert!(!ultra_sniper::feed::is_new_bar(60, 60));
    assert!(!ultra_sniper::feed::is_new_bar(0, 60));
}
