//! ScaleMapper: the time, price and volume transforms.
//!
//! The time domain is milliseconds since the first candle (never absolute
//! epoch times), padded at the right by three average candle spacings. The
//! price transform is logarithmic: positions are linear in the log-price,
//! whose domain is padded at the top by 0.2% so the topmost wick is never
//! clipped. Volume has no axis of its own; it is mapped into the bottom 15%
//! of the padded log-price range. These transforms are the only place
//! geometry-affecting math lives; every renderer consumes them.

use vstd::prelude::*;
use crate::model::{Candle, RenderStats, candle_valid, LOG_ABS_MAX, TIME_ABS_MAX};
use crate::layout::{Region, region_wf};
use crate::normalize::{sorted_by_time, stats_exact, candle_within_stats};

verus! {

/// Largest admitted candle count (a machine limit: far more candles than any
/// canvas can show, yet small enough for exact 64-bit index arithmetic).
pub const CANDLE_COUNT_MAX: usize = 100_000_000;

/// Padding added to the top of the log-price domain, in micro-nats: one
/// million times the natural logarithm of the 1.002 padding factor, rounded.
pub const LOG_PAD_MICRO_NATS: i64 = 1998;

/// The time transform: offsets are milliseconds since the first candle; the
/// domain is `[0, padded_end]`, widened to at least one millisecond.
#[derive(Clone, Copy, PartialEq, Eq, Structural, Debug)]
pub struct TimeScale {
    /// Timestamp of the first (earliest) candle.
    pub first_time: i64,
    /// Offset of the last candle: last timestamp minus first.
    pub last_offset: i64,
    /// Number of candles.
    pub count: usize,
    /// Average candle spacing: `last_offset / count`.
    pub avg_spacing: i64,
    /// `last_offset` plus three average spacings of trailing breathing room.
    pub padded_end: i64,
    /// Positive width of the time domain: `padded_end`, or one millisecond
    /// for a degenerate single-instant domain.
    pub width: i64,
}

/// Internal consistency of a time scale: every derived field follows from
/// `first_time`, `last_offset` and `count` by its defining formula.
pub open spec fn time_scale_wf(t: TimeScale) -> bool {
    &&& -TIME_ABS_MAX <= t.first_time <= TIME_ABS_MAX
    &&& 0 <= t.last_offset <= 2 * TIME_ABS_MAX
    &&& 1 <= t.count <= CANDLE_COUNT_MAX
    &&& t.avg_spacing == t.last_offset as int / (t.count as int)
    &&& 0 <= t.avg_spacing <= t.last_offset
    &&& t.padded_end == t.last_offset + 3 * t.avg_spacing
    &&& t.width == if t.padded_end > 0 { t.padded_end } else { 1 }
    &&& 1 <= t.width <= 8 * TIME_ABS_MAX
}

/// Builds the time transform from a sorted, non-empty candle sequence.
pub fn time_scale(cs: &Vec<Candle>) -> (t: TimeScale)
    requires
        0 < cs@.len() <= CANDLE_COUNT_MAX,
        sorted_by_time(cs@),
        forall|i: int| 0 <= i < cs@.len() ==> candle_valid(#[trigger] cs@[i]),
    ensures
        time_scale_wf(t),
        t.first_time == cs@[0].time,
        t.last_offset == cs@[cs@.len() - 1].time - cs@[0].time,
        t.count == cs@.len(),
{
    let n = cs.len();
    let first = cs[0].time;
    let last = cs[n - 1].time;
    let last_offset = last - first;
    let avg = ((last_offset as u64) / (n as u64)) as i64;
    proof {
        vstd::arithmetic::div_mod::lemma_div_pos_is_pos(last_offset as int, n as int);
        vstd::arithmetic::div_mod::lemma_div_nonincreasing(last_offset as int, n as int);
    }
    let padded_end = last_offset + 3 * avg;
    let width = if padded_end > 0 {
        padded_end
    } else {
        1
    };
    TimeScale { first_time: first, last_offset, count: n, avg_spacing: avg, padded_end, width }
}

/// Offset of a timestamp in the time domain: milliseconds since the first
/// candle.
pub open spec fn spec_offset(t: TimeScale, time: int) -> int {
    time - t.first_time
}

/// Offset of a timestamp in the time domain.
pub fn time_offset(t: &TimeScale, time: i64) -> (off: i64)
    requires
        time_scale_wf(*t),
        -TIME_ABS_MAX <= time <= TIME_ABS_MAX,
    ensures
        off == spec_offset(*t, time as int),
{
    time - t.first_time
}

/// The price transform: the log-price domain, padded at the top, and the
/// volume sub-band occupying its bottom 15%.
#[derive(Clone, Copy, PartialEq, Eq, Structural, Debug)]
pub struct PriceScale {
    /// Bottom of the log-price domain: the global minimum log-price.
    pub min_log: i64,
    /// The global maximum log-price, before padding.
    pub max_log: i64,
    /// Top of the log-price domain: `max_log` plus the 0.2% padding.
    pub max_log_padded: i64,
    /// Top of the volume sub-band: 15% up the padded log-price range.
    pub band_top: i64,
}

/// Internal consistency of a price scale: the padded top and the volume
/// band top follow from `min_log` and `max_log` by their defining formulas.
pub open spec fn price_scale_wf(p: PriceScale) -> bool {
    &&& -LOG_ABS_MAX <= p.min_log <= p.max_log <= LOG_ABS_MAX
    &&& p.max_log_padded == p.max_log + LOG_PAD_MICRO_NATS
    &&& p.band_top == p.min_log + (p.max_log_padded - p.min_log) * 15 / 100
}

/// Height of the padded log-price range, in micro-nats; always positive.
pub open spec fn log_range(p: PriceScale) -> int {
    p.max_log_padded - p.min_log
}

/// Builds the price transform from the aggregate statistics.
pub fn price_scale(s: &RenderStats) -> (p: PriceScale)
    requires
        -LOG_ABS_MAX <= s.min_log <= s.max_log <= LOG_ABS_MAX,
    ensures
        price_scale_wf(p),
        p.min_log == s.min_log,
        p.max_log == s.max_log,
{
    let range = s.max_log + LOG_PAD_MICRO_NATS - s.min_log;
    let frac = (((range as u64) * 15) / 100) as i64;
    proof {
        let r = range as int;
        vstd::arithmetic::div_mod::lemma_div_pos_is_pos(r * 15, 100);
        assert(r * 15 <= 100 * r) by (nonlinear_arith)
            requires r >= 0;
        vstd::arithmetic::div_mod::lemma_multiply_divide_le(r * 15, 100, r);
    }
    PriceScale {
        min_log: s.min_log,
        max_log: s.max_log,
        max_log_padded: s.max_log + LOG_PAD_MICRO_NATS,
        band_top: s.min_log + frac,
    }
}

/// Height in micro-nats that a volume reaches inside the volume sub-band:
/// the band bottom is the domain's minimum log-price, and a volume maps
/// linearly up to the band top, which the maximal volume reaches. A zero
/// maximal volume pins every bar to the band bottom.
pub open spec fn spec_volume_log(p: PriceScale, max_volume: u64, v: u64) -> int {
    if max_volume == 0 {
        p.min_log as int
    } else {
        p.min_log + v * (p.band_top - p.min_log) / (max_volume as int)
    }
}

/// Maps a volume into the volume sub-band.
pub fn volume_log(p: &PriceScale, max_volume: u64, v: u64) -> (y: i64)
    requires
        price_scale_wf(*p),
        v <= max_volume,
    ensures
        y == spec_volume_log(*p, max_volume, v),
        p.min_log <= y <= p.band_top,
{
    if max_volume == 0 {
        p.min_log
    } else {
        let h = (p.band_top - p.min_log) as u64;
        proof {
            vstd::arithmetic::mul::lemma_mul_upper_bound(
                v as int,
                u64::MAX as int,
                h as int,
                u64::MAX as int,
            );
            vstd::arithmetic::div_mod::lemma_div_pos_is_pos(v * h, max_volume as int);
            vstd::arithmetic::mul::lemma_mul_inequality(v as int, max_volume as int, h as int);
            vstd::arithmetic::div_mod::lemma_multiply_divide_le(
                v * h,
                max_volume as int,
                h as int,
            );
        }
        let q = (((v as u128) * (h as u128)) / (max_volume as u128)) as u64;
        p.min_log + (q as i64)
    }
}

/// Pixel x-position of a time-domain offset inside the plot region: linear
/// from `[0, width]` onto `[plot.x, plot.x + plot.w]`.
pub open spec fn spec_x_of_offset(plot: Region, t: TimeScale, off: int) -> int {
    plot.x + off * plot.w / (t.width as int)
}

/// Maps a time-domain offset to its pixel x-position.
pub fn x_of_offset(plot: &Region, t: &TimeScale, off: i64) -> (x: i64)
    requires
        region_wf(*plot),
        time_scale_wf(*t),
        0 <= off <= t.width,
    ensures
        x == spec_x_of_offset(*plot, *t, off as int),
        plot.x <= x <= plot.x + plot.w,
{
    proof {
        vstd::arithmetic::mul::lemma_mul_upper_bound(
            off as int,
            i64::MAX as int,
            plot.w as int,
            i64::MAX as int,
        );
        vstd::arithmetic::div_mod::lemma_div_pos_is_pos(off * plot.w, t.width as int);
        vstd::arithmetic::mul::lemma_mul_inequality(off as int, t.width as int, plot.w as int);
        vstd::arithmetic::div_mod::lemma_multiply_divide_le(
            off * plot.w,
            t.width as int,
            plot.w as int,
        );
    }
    let q = (((off as u128) * (plot.w as u128)) / (t.width as u128)) as i64;
    plot.x + q
}

/// Pixel y-position of a log-price inside the plot region: linear in the
/// log-price, with the padded top of the domain at `plot.y` and the domain's
/// minimum at `plot.y + plot.h` (pixel y grows downward).
pub open spec fn spec_y_of_log(plot: Region, p: PriceScale, log: int) -> int {
    plot.y + (p.max_log_padded - log) * plot.h / log_range(p)
}

/// Maps a log-price to its pixel y-position. Admits values up to three
/// range-heights outside the domain, so marker anchors offset beyond the
/// padded top or below the bottom still map exactly.
pub fn y_of_log(plot: &Region, p: &PriceScale, log: i64) -> (y: i64)
    requires
        region_wf(*plot),
        price_scale_wf(*p),
        p.min_log - 3 * log_range(*p) <= log <= p.max_log_padded + 3 * log_range(*p),
    ensures
        y == spec_y_of_log(*plot, *p, log as int),
        p.min_log <= log <= p.max_log_padded ==> plot.y <= y <= plot.y + plot.h,
        plot.y - 4 * plot.h <= y <= plot.y + 4 * plot.h,
{
    let range = p.max_log_padded - p.min_log;
    let diff = p.max_log_padded - log;
    let shifted = (diff + 4 * range) as u64;
    proof {
        vstd::arithmetic::mul::lemma_mul_upper_bound(
            shifted as int,
            u64::MAX as int,
            plot.h as int,
            u64::MAX as int,
        );
        let d = diff as int;
        let h = plot.h as int;
        let r = range as int;
        assert((d + 4 * r) * h == d * h + (4 * h) * r) by (nonlinear_arith);
        vstd::arithmetic::div_mod::lemma_div_pos_is_pos((d + 4 * r) * h, r);
        assert((d + 4 * r) <= 8 * r);
        vstd::arithmetic::mul::lemma_mul_inequality(d + 4 * r, 8 * r, h);
        assert(8 * r * h == r * (8 * h)) by (nonlinear_arith);
        vstd::arithmetic::div_mod::lemma_multiply_divide_le((d + 4 * r) * h, r, 8 * h);
        vstd::arithmetic::div_mod::lemma_hoist_over_denominator(d * h, 4 * h, r as nat);
        assert((d + 4 * r) * h / r == d * h / r + 4 * h);
        if p.min_log <= log <= p.max_log_padded {
            assert(0 <= d <= r);
            vstd::arithmetic::div_mod::lemma_div_pos_is_pos(d * h, r);
            vstd::arithmetic::mul::lemma_mul_inequality(d, r, h);
            vstd::arithmetic::div_mod::lemma_multiply_divide_le(d * h, r, h);
        }
    }
    let q2 = ((shifted as u128) * (plot.h as u128) / (range as u128)) as u64;
    plot.y + (q2 as i64) - 4 * plot.h
}

/// Left boundary of candle slot `i` in time-domain units: the time domain is
/// partitioned uniformly into `count` slots, slot `i` spanning
/// `[i*width/count, (i+1)*width/count)`.
pub open spec fn spec_slot_bound(t: TimeScale, i: int) -> int {
    i * t.width / (t.count as int)
}

/// Boundary `i` of the uniform slot partition (`i` ranges over `0..=count`).
pub fn slot_bound(t: &TimeScale, i: usize) -> (b: i64)
    requires
        time_scale_wf(*t),
        i <= t.count,
    ensures
        b == spec_slot_bound(*t, i as int),
        0 <= b <= t.width,
{
    proof {
        vstd::arithmetic::mul::lemma_mul_upper_bound(
            i as int,
            u64::MAX as int,
            t.width as int,
            u64::MAX as int,
        );
        vstd::arithmetic::div_mod::lemma_div_pos_is_pos(i * t.width, t.count as int);
        vstd::arithmetic::mul::lemma_mul_inequality(i as int, t.count as int, t.width as int);
        assert((t.count as int) * (t.width as int) == (t.width as int) * (t.count as int));
        vstd::arithmetic::div_mod::lemma_multiply_divide_le(
            i * t.width,
            t.count as int,
            t.width as int,
        );
    }
    let q = (((i as u128) * (t.width as u128)) / (t.count as u128)) as i64;
    q
}

/// Sum of the widths of slots `0..k`.
pub open spec fn slot_width_sum(t: TimeScale, k: int) -> int
    decreases k,
{
    if k <= 0 {
        0
    } else {
        slot_width_sum(t, k - 1) + (spec_slot_bound(t, k) - spec_slot_bound(t, k - 1))
    }
}

/// The slot partition is exact: summed over all candles, the slot widths
/// cover the time-domain width with no overlap and no gap — consecutive
/// slots share a boundary, the first slot starts at zero, and the widths of
/// all `count` slots sum to exactly the domain width.
pub proof fn lemma_slots_partition(t: TimeScale)
    requires
        time_scale_wf(t),
    ensures
        spec_slot_bound(t, 0) == 0,
        spec_slot_bound(t, t.count as int) == t.width,
        forall|k: int| 0 <= k <= t.count ==> slot_width_sum(t, k) == spec_slot_bound(t, k),
        slot_width_sum(t, t.count as int) == t.width,
        forall|i: int|
            0 <= i < t.count ==> #[trigger] spec_slot_bound(t, i) <= spec_slot_bound(t, i + 1),
{
    let n = t.count as int;
    let w = t.width as int;
    assert(spec_slot_bound(t, 0) == 0) by {
        vstd::arithmetic::div_mod::lemma_div_of0(n);
        assert(0 * w == 0) by (nonlinear_arith);
    };
    assert(spec_slot_bound(t, n) == w) by {
        assert(n * w == w * n) by (nonlinear_arith);
        vstd::arithmetic::div_mod::lemma_div_by_multiple(w, n);
    };
    assert forall|k: int| 0 <= k <= n implies slot_width_sum(t, k) == spec_slot_bound(t, k) by {
        lemma_slot_width_sum(t, k);
    };
    assert forall|i: int| 0 <= i < n implies #[trigger] spec_slot_bound(t, i) <= spec_slot_bound(
        t,
        i + 1,
    ) by {
        vstd::arithmetic::mul::lemma_mul_inequality(i, i + 1, w);
        vstd::arithmetic::div_mod::lemma_div_is_ordered(i * w, (i + 1) * w, n);
    };
}

/// Every log-price of every candle lies inside the log-price domain: at or
/// above the domain's minimum, and at or below its padded top (the maximum
/// log-price plus the 0.2% headroom), so no wick or body is ever clipped.
pub proof fn lemma_logs_within_domain(cs: Seq<Candle>, s: RenderStats, p: PriceScale)
    requires
        stats_exact(cs, s),
        price_scale_wf(p),
        p.min_log == s.min_log,
        p.max_log == s.max_log,
    ensures
        forall|i: int|
            0 <= i < cs.len() ==> {
                &&& p.min_log <= #[trigger] cs[i].log_open <= p.max_log_padded
                &&& p.min_log <= cs[i].log_high <= p.max_log_padded
                &&& p.min_log <= cs[i].log_low <= p.max_log_padded
                &&& p.min_log <= cs[i].log_close <= p.max_log_padded
            },
{
    assert forall|i: int| 0 <= i < cs.len() implies {
        &&& p.min_log <= #[trigger] cs[i].log_open <= p.max_log_padded
        &&& p.min_log <= cs[i].log_high <= p.max_log_padded
        &&& p.min_log <= cs[i].log_low <= p.max_log_padded
        &&& p.min_log <= cs[i].log_close <= p.max_log_padded
    } by {
        assert(candle_within_stats(cs[i], s));
    };
}

proof fn lemma_slot_width_sum(t: TimeScale, k: int)
    requires
        time_scale_wf(t),
        0 <= k <= t.count,
    ensures
        slot_width_sum(t, k) == spec_slot_bound(t, k),
    decreases k,
{
    if k == 0 {
        vstd::arithmetic::div_mod::lemma_div_of0(t.count as int);
        assert(0 * t.width == 0) by (nonlinear_arith);
    } else {
        lemma_slot_width_sum(t, k - 1);
    }
}

} // verus!
