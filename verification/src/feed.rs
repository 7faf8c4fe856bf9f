use vstd::prelude::*;
use crate::text::{append_decimal, decimal};

verus! {

/// Error of a market-data feed.
#[derive(Debug)]
pub enum FeedError {
    Http(String),
    Parse(String),
    Empty,
}

/// The text a feed error is reported with.
pub open spec fn error_text(e: FeedError) -> Seq<char> {
    match e {
        FeedError::Http(m) => "HTTP error: "@ + m@,
        FeedError::Parse(m) => "Parse error: "@ + m@,
        FeedError::Empty => "Empty response"@,
    }
}

impl FeedError {
    /// The human-readable report of this error.
    pub fn message(&self) -> (r: String)
        ensures
            r@ == error_text(*self),
            self matches FeedError::Http(m) ==> r@ == "HTTP error: "@ + m@,
            self matches FeedError::Parse(m) ==> r@ == "Parse error: "@ + m@,
            self is Empty ==> r@ == "Empty response"@,
    {
        match self {
            FeedError::Http(m) => {
                let mut s = String::from_str("HTTP error: ");
                s.append(m.as_str());
                s
            },
            FeedError::Parse(m) => {
                let mut s = String::from_str("Parse error: ");
                s.append(m.as_str());
                s
            },
            FeedError::Empty => String::from_str("Empty response"),
        }
    }
}

/// Kline interval of the exchange API.
#[derive(Debug, Clone, Copy, PartialEq, Eq, Structural)]
pub enum Interval {
    M1,
    M5,
    M15,
    H1,
}

/// The API code of an interval.
pub open spec fn interval_code(i: Interval) -> Seq<char> {
    match i {
        Interval::M1 => "1m"@,
        Interval::M5 => "5m"@,
        Interval::M15 => "15m"@,
        Interval::H1 => "1h"@,
    }
}

impl Interval {
    pub fn as_str(self) -> (r: &'static str)
        ensures
            r@ == interval_code(self),
            self == Interval::M1 ==> r@ == "1m"@,
            self == Interval::M5 ==> r@ == "5m"@,
            self == Interval::M15 ==> r@ == "15m"@,
            self == Interval::H1 ==> r@ == "1h"@,
    {
        match self {
            Interval::M1 => "1m",
            Interval::M5 => "5m",
            Interval::M15 => "15m",
            Interval::H1 => "1h",
        }
    }
}

/// Different intervals have different API codes.
pub proof fn lemma_interval_code_injective(a: Interval, b: Interval)
    requires
        interval_code(a) == interval_code(b),
    ensures
        a == b,
{
    reveal_strlit("1m");
    reveal_strlit("5m");
    reveal_strlit("15m");
    reveal_strlit("1h");
    assert("1m"@[0] != "5m"@[0]);
    assert("1m"@[1] != "1h"@[1]);
    assert("5m"@[1] != "1h"@[1]);
    assert("15m"@.len() == 3);
}

/// What `str::to_uppercase` returns for a string (Unicode upper-casing).
pub uninterp spec fn uppercase(s: Seq<char>) -> Seq<char>;

/// Calls `str::to_uppercase`; its result is `uppercase` of the input.
/// Nothing further about the mapping is stated.
#[verifier::external_body]
fn to_uppercase(s: &str) -> (r: String)
    ensures
        r@ == uppercase(s@),
{
    s.to_uppercase()
}

/// What `str::to_lowercase` returns for a string (Unicode lower-casing).
pub uninterp spec fn lowercase(s: Seq<char>) -> Seq<char>;

/// Calls `str::to_lowercase`; its result is `lowercase` of the input.
/// Nothing further about the mapping is stated.
#[verifier::external_body]
fn to_lowercase(s: &str) -> (r: String)
    ensures
        r@ == lowercase(s@),
{
    s.to_lowercase()
}

/// WebSocket URL of the one-minute kline stream of `symbol` (lower-cased).
pub fn kline_stream_url(symbol: &str) -> (r: String)
    ensures
        r@ == "wss://stream.binance.com:9443/ws/"@ + lowercase(symbol@) + "@kline_1m"@,
{
    let lower = to_lowercase(symbol);
    let mut s = String::from_str("wss://stream.binance.com:9443/ws/");
    s.append(lower.as_str());
    s.append("@kline_1m");
    s
}

/// REST feed of exchange klines for one symbol and interval.
pub struct BinanceFeed {
    pub symbol: String,
    pub interval: Interval,
    base_url: String,
}

impl BinanceFeed {
    /// The API root the requests go to.
    pub closed spec fn base(&self) -> Seq<char> {
        self.base_url@
    }

    /// The (upper-cased) symbol requested.
    pub closed spec fn symbol_text(&self) -> Seq<char> {
        self.symbol@
    }

    /// The kline interval requested.
    pub closed spec fn interval_of(&self) -> Interval {
        self.interval
    }

    /// A feed for `symbol` (upper-cased) on the public API.
    pub fn new(symbol: &str, interval: Interval) -> (r: Self)
        ensures
            r.symbol_text() == uppercase(symbol@),
            r.interval_of() == interval,
            r.base() == "https://api.binance.com"@,
    {
        BinanceFeed {
            symbol: to_uppercase(symbol),
            interval,
            base_url: String::from_str("https://api.binance.com"),
        }
    }

    /// The same feed against another API root.
    pub fn with_base_url(self, url: &str) -> (r: Self)
        ensures
            r.symbol_text() == self.symbol_text(),
            r.interval_of() == self.interval_of(),
            r.base() == url@,
    {
        BinanceFeed { symbol: self.symbol, interval: self.interval, base_url: String::from_str(url) }
    }

    /// Request URL for the last `limit` klines.
    pub fn url(&self, limit: u32) -> (r: String)
        ensures
            r@ == self.base() + "/api/v3/klines?symbol="@ + self.symbol_text() + "&interval="@
                + interval_code(self.interval_of()) + "&limit="@ + decimal(limit as nat),
    {
        let mut s = self.base_url.clone();
        s.append("/api/v3/klines?symbol=");
        s.append(self.symbol.as_str());
        s.append("&interval=");
        s.append(self.interval.as_str());
        s.append("&limit=");
        append_decimal(&mut s, limit);
        s
    }
}

/// Index of the newest closed candle in a fetch of `count` candles, oldest
/// first: the last candle is still forming, so the one before it is used
/// when there is one.
pub fn closed_candle_index(count: usize) -> (r: usize)
    requires
        count > 0,
    ensures
        r == (if count >= 2 { count - 2 } else { count - 1 }),
        r < count,
{
    if count >= 2 {
        count - 2
    } else {
        count - 1
    }
}

/// Whether a fetched candle is a bar not processed yet: its open time is
/// after that of the last processed bar.
pub fn is_new_bar(timestamp: u64, last_ts: u64) -> (r: bool)
    ensures
        r == (timestamp > last_ts),
{
    timestamp > last_ts
}

/// Whether the market price is refreshed on bar number `bar_count`: only
/// when a market is configured, and then on every `poll_every`-th bar.
pub fn market_poll_due(has_market: bool, bar_count: u64, poll_every: u64) -> (r: bool)
    requires
        has_market ==> poll_every > 0,
    ensures
        r == (has_market && bar_count % poll_every == 0),
{
    has_market && bar_count % poll_every == 0
}

/// REST feed of binary-market prices.
pub struct PolymarketFeed {
    base_url: String,
}

impl PolymarketFeed {
    /// The API root the requests go to.
    pub closed spec fn base(&self) -> Seq<char> {
        self.base_url@
    }

    /// A feed on the public API.
    pub fn new() -> (r: Self)
        ensures
            r.base() == "https://gamma-api.polymarket.com"@,
    {
        PolymarketFeed { base_url: String::from_str("https://gamma-api.polymarket.com") }
    }

    /// A feed against another API root.
    pub fn with_base_url(base_url: &str) -> (r: Self)
        ensures
            r.base() == base_url@,
    {
        PolymarketFeed { base_url: String::from_str(base_url) }
    }

    /// Request URL for the market with the given condition id.
    pub fn url(&self, condition_id: &str) -> (r: String)
        ensures
            r@ == self.base() + "/markets?conditionIds="@ + condition_id@,
    {
        let mut s = self.base_url.clone();
        s.append("/markets?conditionIds=");
        s.append(condition_id);
        s
    }
}

impl Default for PolymarketFeed {
    fn default() -> (r: Self)
        ensures
            r.base() == "https://gamma-api.polymarket.com"@,
    {
        Self::new()
    }
}

} // verus!
