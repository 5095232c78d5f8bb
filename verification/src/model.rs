//! Input data model and its validity bounds.
//!
//! All quantities are plain integers:
//! - times are epoch milliseconds (`i64`);
//! - prices are fixed-point micro-units (`u64`, `PRICE_UNITS_PER_WHOLE`
//!   micro-units per whole quote unit), clamped to a strictly positive floor
//!   of one micro-unit because the price axis is logarithmic;
//! - log-prices are micro-nats (`i64`, one millionth of a natural logarithm
//!   unit), computed by the caller at the boundary where the floating-point
//!   logarithm lives, and treated here as given data;
//! - marker sizes are per-mille scale factors (`u64`, `1000` = the default
//!   factor of one).

use vstd::prelude::*;
use crate::color::Rgb;

verus! {

/// Fixed-point price scale: micro-units per whole quote unit.
pub const PRICE_UNITS_PER_WHOLE: u64 = 1_000_000;

/// Largest admitted magnitude of a log-price in micro-nats (100 nats covers
/// every price a 64-bit fixed-point value can express, with a wide margin).
pub const LOG_ABS_MAX: i64 = 100_000_000;

/// Largest admitted magnitude of a timestamp in epoch milliseconds
/// (about 125,000 years either side of the epoch), so that differences and
/// small multiples of differences stay far from the 64-bit limits.
pub const TIME_ABS_MAX: i64 = 4_000_000_000_000_000;

/// Largest admitted marker scale factor, in per-mille (a factor of 100).
pub const MARK_SIZE_MILLI_MAX: u64 = 100_000;

/// One raw OHLCV row: a timestamp, four prices with their log-prices, and an
/// optional volume (`None` stands for a row with only five numeric fields).
#[derive(Clone, Debug)]
pub struct Row {
    pub time: i64,
    pub open: u64,
    pub high: u64,
    pub low: u64,
    pub close: u64,
    pub log_open: i64,
    pub log_high: i64,
    pub log_low: i64,
    pub log_close: i64,
    pub volume: Option<u64>,
}

/// Where a marker sits relative to its anchor candle.
#[derive(Clone, Copy, PartialEq, Eq, Structural, Debug)]
pub enum MarkPosition {
    Above,
    Below,
}

/// A positional marker: snapped to the candle nearest in time, drawn as a
/// directional triangle with an optional label.
#[derive(Clone, Debug)]
pub struct Mark {
    pub time: i64,
    pub position: MarkPosition,
    pub color: String,
    pub text: Option<String>,
    pub size_milli: u64,
}

/// The marker overlays requested for one chart.
#[derive(Clone, Debug)]
pub struct Plots {
    pub marks: Vec<Mark>,
}

/// One chart request's payload.
#[derive(Clone, Debug)]
pub struct ChartData {
    pub title: String,
    pub ticker: String,
    pub timeframe: String,
    /// Column names describing the rows; informational only.
    pub cols: Vec<String>,
    pub data: Vec<Row>,
    /// Hex color per candle body; shorter lists fall back to opaque black.
    pub candle_colors: Vec<String>,
    /// Hex color per volume bar; shorter lists fall back to mid-gray.
    pub volume_colors: Vec<String>,
    pub plots: Plots,
    /// Free text forwarded to the notifier.
    pub desc: String,
    /// Routing hint forwarded untouched to the notifier.
    pub chat_id: Option<String>,
    /// Routing hint forwarded untouched to the notifier.
    pub subscriber_list: Vec<String>,
}

/// An inbound request envelope: source tag, command, payload.
#[derive(Clone, Debug)]
pub struct ChartRequest(pub String, pub String, pub ChartData);

/// A normalized candle: clamped prices, their log-prices, a defaulted volume
/// and the resolved colors of its body and volume bar.
#[derive(Clone, Debug)]
pub struct Candle {
    pub time: i64,
    pub open: u64,
    pub high: u64,
    pub low: u64,
    pub close: u64,
    pub log_open: i64,
    pub log_high: i64,
    pub log_low: i64,
    pub log_close: i64,
    pub volume: u64,
    pub body_color: Rgb,
    pub volume_color: Rgb,
}

/// Aggregate statistics over a normalized candle sequence, computed once and
/// shared read-only by every downstream component.
#[derive(Clone, Copy, Debug)]
pub struct RenderStats {
    pub min_price: u64,
    pub max_price: u64,
    pub max_volume: u64,
    pub min_log: i64,
    pub max_log: i64,
}

/// Machine-limit bounds on one row: its timestamp and log-prices must sit
/// far enough from the 64-bit limits for the geometry below to be exact.
pub open spec fn row_valid(r: Row) -> bool {
    &&& -TIME_ABS_MAX <= r.time <= TIME_ABS_MAX
    &&& -LOG_ABS_MAX <= r.log_open <= LOG_ABS_MAX
    &&& -LOG_ABS_MAX <= r.log_high <= LOG_ABS_MAX
    &&& -LOG_ABS_MAX <= r.log_low <= LOG_ABS_MAX
    &&& -LOG_ABS_MAX <= r.log_close <= LOG_ABS_MAX
}

/// Machine-limit bounds on one marker: a bounded timestamp and a positive,
/// bounded scale factor.
pub open spec fn mark_valid(m: Mark) -> bool {
    &&& -TIME_ABS_MAX <= m.time <= TIME_ABS_MAX
    &&& 1 <= m.size_milli <= MARK_SIZE_MILLI_MAX
}

/// Machine-limit bounds on a whole payload.
pub open spec fn chart_data_valid(d: ChartData) -> bool {
    &&& forall|i: int| 0 <= i < d.data@.len() ==> row_valid(#[trigger] d.data@[i])
    &&& forall|i: int| 0 <= i < d.plots.marks@.len() ==> mark_valid(#[trigger] d.plots.marks@[i])
}

/// The same bounds, carried over to a normalized candle.
pub open spec fn candle_valid(c: Candle) -> bool {
    &&& -TIME_ABS_MAX <= c.time <= TIME_ABS_MAX
    &&& -LOG_ABS_MAX <= c.log_open <= LOG_ABS_MAX
    &&& -LOG_ABS_MAX <= c.log_high <= LOG_ABS_MAX
    &&& -LOG_ABS_MAX <= c.log_low <= LOG_ABS_MAX
    &&& -LOG_ABS_MAX <= c.log_close <= LOG_ABS_MAX
}

} // verus!
