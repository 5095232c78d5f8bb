//! SeriesRenderer: grid, volume bars, wicks, candle bodies and the
//! current-price reference line, emitted strictly in that back-to-front
//! order, plus the axis tick anchors.
//!
//! Candle geometry comes from the uniform slot partition of the time domain:
//! bodies and volume bars take 80% of their slot, wicks 15%, each centered
//! in the slot. Wicks are drawn before bodies so bodies visually cap them.

use vstd::prelude::*;
use crate::color::Rgb;
use crate::model::{Candle, RenderStats};
use crate::layout::{Region, region_wf};
use crate::scale::{
    TimeScale, PriceScale, time_scale_wf, price_scale_wf, log_range, spec_slot_bound, slot_bound,
    spec_x_of_offset, x_of_offset, spec_y_of_log, y_of_log, spec_volume_log, volume_log,
};
use crate::normalize::{stats_exact, candle_within_stats};
use crate::scene::Primitive;

verus! {

/// Opacity of volume bars, in percent.
pub const VOLUME_ALPHA_PCT: u8 = 80;

/// Everything the series renderer assumes of its inputs: well-formed plot
/// region and transforms, transforms derived from these candles' statistics,
/// and one slot per candle.
pub open spec fn series_ctx_wf(
    plot: Region,
    t: TimeScale,
    p: PriceScale,
    s: RenderStats,
    cs: Seq<Candle>,
) -> bool {
    &&& region_wf(plot)
    &&& time_scale_wf(t)
    &&& price_scale_wf(p)
    &&& t.count == cs.len()
    &&& cs.len() > 0
    &&& p.min_log == s.min_log
    &&& p.max_log == s.max_log
    &&& stats_exact(cs, s)
}

// ─── Grid ───────────────────────────────────────────────────────────────

/// Log-price of horizontal grid line `i` (17 half-step lines over the padded
/// range: 8 major steps with interleaved minor lines).
pub open spec fn h_grid_log(p: PriceScale, i: int) -> int {
    p.min_log + log_range(p) * i / 16
}

/// Horizontal grid line `i`: spans the plot width; major lines (even `i`)
/// slightly darker than minor ones.
pub open spec fn spec_h_grid_line(plot: Region, p: PriceScale, i: int) -> Primitive {
    Primitive::Line {
        x0: plot.x,
        y0: spec_y_of_log(plot, p, h_grid_log(p, i)) as i64,
        x1: (plot.x + plot.w) as i64,
        y1: spec_y_of_log(plot, p, h_grid_log(p, i)) as i64,
        color: if i % 2 == 0 {
            Rgb { r: 235, g: 235, b: 235 }
        } else {
            Rgb { r: 240, g: 240, b: 240 }
        },
    }
}

/// Time-domain offset of vertical grid line `i` (5 even subdivisions).
pub open spec fn v_grid_offset(t: TimeScale, i: int) -> int {
    i * t.width / 5
}

/// Vertical grid line `i`: spans the plot height.
pub open spec fn spec_v_grid_line(plot: Region, t: TimeScale, i: int) -> Primitive {
    Primitive::Line {
        x0: spec_x_of_offset(plot, t, v_grid_offset(t, i)) as i64,
        y0: plot.y,
        x1: spec_x_of_offset(plot, t, v_grid_offset(t, i)) as i64,
        y1: (plot.y + plot.h) as i64,
        color: Rgb { r: 245, g: 245, b: 245 },
    }
}

/// The grid layer: 17 horizontal then 6 vertical lines.
pub open spec fn grid_seq(plot: Region, t: TimeScale, p: PriceScale) -> Seq<Primitive> {
    Seq::new(17, |i: int| spec_h_grid_line(plot, p, i)) + Seq::new(
        6,
        |i: int| spec_v_grid_line(plot, t, i),
    )
}

fn h_grid_line(plot: &Region, p: &PriceScale, i: usize) -> (pr: Primitive)
    requires
        region_wf(*plot),
        price_scale_wf(*p),
        i < 17,
    ensures
        pr == spec_h_grid_line(*plot, *p, i as int),
{
    let range = p.max_log_padded - p.min_log;
    proof {
        vstd::arithmetic::div_mod::lemma_div_pos_is_pos(range * i, 16);
        vstd::arithmetic::mul::lemma_mul_inequality(i as int, 16, range as int);
        assert(range * i == i * range) by (nonlinear_arith);
        vstd::arithmetic::div_mod::lemma_multiply_divide_le(range * i, 16, range as int);
    }
    let li = p.min_log + (((range as u64) * (i as u64)) / 16) as i64;
    let y = y_of_log(plot, p, li);
    let color = if i % 2 == 0 {
        Rgb { r: 235, g: 235, b: 235 }
    } else {
        Rgb { r: 240, g: 240, b: 240 }
    };
    Primitive::Line { x0: plot.x, y0: y, x1: plot.x + plot.w, y1: y, color }
}

fn v_grid_offset_at(t: &TimeScale, i: usize) -> (off: i64)
    requires
        time_scale_wf(*t),
        i <= 5,
    ensures
        off == v_grid_offset(*t, i as int),
        0 <= off <= t.width,
{
    proof {
        vstd::arithmetic::div_mod::lemma_div_pos_is_pos(i * t.width, 5);
        vstd::arithmetic::mul::lemma_mul_inequality(i as int, 5, t.width as int);
        assert(5 * t.width == t.width * 5) by (nonlinear_arith);
        vstd::arithmetic::div_mod::lemma_multiply_divide_le(i * t.width, 5, t.width as int);
    }
    (((i as u64) * (t.width as u64)) / 5) as i64
}

fn v_grid_line(plot: &Region, t: &TimeScale, i: usize) -> (pr: Primitive)
    requires
        region_wf(*plot),
        time_scale_wf(*t),
        i < 6,
    ensures
        pr == spec_v_grid_line(*plot, *t, i as int),
{
    let off = v_grid_offset_at(t, i);
    let x = x_of_offset(plot, t, off);
    Primitive::Line {
        x0: x,
        y0: plot.y,
        x1: x,
        y1: plot.y + plot.h,
        color: Rgb { r: 245, g: 245, b: 245 },
    }
}

/// Appends the grid layer to the display list.
pub fn push_grid(out: &mut Vec<Primitive>, plot: &Region, t: &TimeScale, p: &PriceScale)
    requires
        region_wf(*plot),
        time_scale_wf(*t),
        price_scale_wf(*p),
    ensures
        final(out)@ == old(out)@ + grid_seq(*plot, *t, *p),
{
    let ghost hseq = Seq::new(17, |i: int| spec_h_grid_line(*plot, *p, i));
    let ghost vseq = Seq::new(6, |i: int| spec_v_grid_line(*plot, *t, i));
    let mut i: usize = 0;
    while i < 17
        invariant
            i <= 17,
            region_wf(*plot),
            time_scale_wf(*t),
            price_scale_wf(*p),
            hseq == Seq::new(17, |k: int| spec_h_grid_line(*plot, *p, k)),
            out@ == old(out)@ + hseq.take(i as int),
        decreases 17 - i,
    {
        let pr = h_grid_line(plot, p, i);
        proof {
            assert(hseq.take(i + 1) =~= hseq.take(i as int).push(hseq[i as int]));
        }
        out.push(pr);
        i = i + 1;
    }
    let mut j: usize = 0;
    while j < 6
        invariant
            j <= 6,
            region_wf(*plot),
            time_scale_wf(*t),
            price_scale_wf(*p),
            hseq == Seq::new(17, |k: int| spec_h_grid_line(*plot, *p, k)),
            vseq == Seq::new(6, |k: int| spec_v_grid_line(*plot, *t, k)),
            out@ == old(out)@ + hseq + vseq.take(j as int),
        decreases 6 - j,
    {
        let pr = v_grid_line(plot, t, j);
        proof {
            assert(vseq.take(j + 1) =~= vseq.take(j as int).push(vseq[j as int]));
            assert(hseq.take(17) =~= hseq);
        }
        out.push(pr);
        j = j + 1;
    }
    proof {
        assert(hseq.take(17) =~= hseq);
        assert(vseq.take(6) =~= vseq);
        assert(out@ =~= old(out)@ + grid_seq(*plot, *t, *p));
    }
}

// ─── Axis ticks ─────────────────────────────────────────────────────────

/// Log-price of major price tick `i` (9 ticks over the padded range).
pub open spec fn price_tick_log(p: PriceScale, i: int) -> int {
    p.min_log + log_range(p) * i / 8
}

/// Time tick `i`: anchored in the bottom margin under vertical grid line `i`,
/// carrying the absolute timestamp it marks.
pub open spec fn spec_time_tick(plot: Region, t: TimeScale, i: int) -> Primitive {
    Primitive::TimeTick {
        x: spec_x_of_offset(plot, t, v_grid_offset(t, i)) as i64,
        y: (plot.y + plot.h + 12) as i64,
        time: (t.first_time + v_grid_offset(t, i)) as i64,
    }
}

/// Price tick `i`: anchored in the right margin at its log-price.
pub open spec fn spec_price_tick(plot: Region, p: PriceScale, i: int) -> Primitive {
    Primitive::PriceTick {
        x: (plot.x + plot.w + 8) as i64,
        y: spec_y_of_log(plot, p, price_tick_log(p, i)) as i64,
        log_price: price_tick_log(p, i) as i64,
    }
}

/// The axis-tick layer: 6 time ticks then 9 price ticks.
pub open spec fn ticks_seq(plot: Region, t: TimeScale, p: PriceScale) -> Seq<Primitive> {
    Seq::new(6, |i: int| spec_time_tick(plot, t, i)) + Seq::new(
        9,
        |i: int| spec_price_tick(plot, p, i),
    )
}

fn time_tick(plot: &Region, t: &TimeScale, i: usize) -> (pr: Primitive)
    requires
        region_wf(*plot),
        time_scale_wf(*t),
        i < 6,
    ensures
        pr == spec_time_tick(*plot, *t, i as int),
{
    let off = v_grid_offset_at(t, i);
    let x = x_of_offset(plot, t, off);
    Primitive::TimeTick { x, y: plot.y + plot.h + 12, time: t.first_time + off }
}

fn price_tick(plot: &Region, p: &PriceScale, i: usize) -> (pr: Primitive)
    requires
        region_wf(*plot),
        price_scale_wf(*p),
        i < 9,
    ensures
        pr == spec_price_tick(*plot, *p, i as int),
{
    let range = p.max_log_padded - p.min_log;
    proof {
        vstd::arithmetic::div_mod::lemma_div_pos_is_pos(range * i, 8);
        vstd::arithmetic::mul::lemma_mul_inequality(i as int, 8, range as int);
        assert(range * i == i * range) by (nonlinear_arith);
        vstd::arithmetic::div_mod::lemma_multiply_divide_le(range * i, 8, range as int);
    }
    let li = p.min_log + (((range as u64) * (i as u64)) / 8) as i64;
    let y = y_of_log(plot, p, li);
    Primitive::PriceTick { x: plot.x + plot.w + 8, y, log_price: li }
}

/// Appends the axis-tick layer to the display list.
pub fn push_axis_ticks(out: &mut Vec<Primitive>, plot: &Region, t: &TimeScale, p: &PriceScale)
    requires
        region_wf(*plot),
        time_scale_wf(*t),
        price_scale_wf(*p),
    ensures
        final(out)@ == old(out)@ + ticks_seq(*plot, *t, *p),
{
    let ghost tseq = Seq::new(6, |i: int| spec_time_tick(*plot, *t, i));
    let ghost pseq = Seq::new(9, |i: int| spec_price_tick(*plot, *p, i));
    let mut i: usize = 0;
    while i < 6
        invariant
            i <= 6,
            region_wf(*plot),
            time_scale_wf(*t),
            price_scale_wf(*p),
            tseq == Seq::new(6, |k: int| spec_time_tick(*plot, *t, k)),
            out@ == old(out)@ + tseq.take(i as int),
        decreases 6 - i,
    {
        let pr = time_tick(plot, t, i);
        proof {
            assert(tseq.take(i + 1) =~= tseq.take(i as int).push(tseq[i as int]));
        }
        out.push(pr);
        i = i + 1;
    }
    let mut j: usize = 0;
    while j < 9
        invariant
            j <= 9,
            region_wf(*plot),
            time_scale_wf(*t),
            price_scale_wf(*p),
            tseq == Seq::new(6, |k: int| spec_time_tick(*plot, *t, k)),
            pseq == Seq::new(9, |k: int| spec_price_tick(*plot, *p, k)),
            out@ == old(out)@ + tseq + pseq.take(j as int),
        decreases 9 - j,
    {
        let pr = price_tick(plot, p, j);
        proof {
            assert(pseq.take(j + 1) =~= pseq.take(j as int).push(pseq[j as int]));
            assert(tseq.take(6) =~= tseq);
        }
        out.push(pr);
        j = j + 1;
    }
    proof {
        assert(tseq.take(6) =~= tseq);
        assert(pseq.take(9) =~= pseq);
        assert(out@ =~= old(out)@ + ticks_seq(*plot, *t, *p));
    }
}

// ─── Candle slot geometry ───────────────────────────────────────────────

/// Width of slot `i` in time-domain units.
pub open spec fn spec_slot_width(t: TimeScale, i: int) -> int {
    spec_slot_bound(t, i + 1) - spec_slot_bound(t, i)
}

/// Left edge of the 80%-wide centered span of slot `i` (bodies and volume
/// bars).
pub open spec fn spec_bar_left(t: TimeScale, i: int) -> int {
    spec_slot_bound(t, i) + spec_slot_width(t, i) / 10
}

/// Right edge of the 80%-wide centered span of slot `i`.
pub open spec fn spec_bar_right(t: TimeScale, i: int) -> int {
    spec_slot_bound(t, i + 1) - spec_slot_width(t, i) / 10
}

/// Left edge of the 15%-wide centered span of slot `i` (wicks).
pub open spec fn spec_wick_left(t: TimeScale, i: int) -> int {
    spec_slot_bound(t, i) + (spec_slot_width(t, i) - spec_slot_width(t, i) * 15 / 100) / 2
}

/// Right edge of the 15%-wide centered span of slot `i`.
pub open spec fn spec_wick_right(t: TimeScale, i: int) -> int {
    spec_wick_left(t, i) + spec_slot_width(t, i) * 15 / 100
}

fn bar_edges(t: &TimeScale, i: usize) -> (e: (i64, i64))
    requires
        time_scale_wf(*t),
        i < t.count,
    ensures
        e.0 == spec_bar_left(*t, i as int),
        e.1 == spec_bar_right(*t, i as int),
        0 <= e.0 <= e.1 <= t.width,
{
    let b0 = slot_bound(t, i);
    let b1 = slot_bound(t, i + 1);
    proof {
        vstd::arithmetic::mul::lemma_mul_inequality(i as int, i + 1, t.width as int);
        vstd::arithmetic::div_mod::lemma_div_is_ordered(
            i * t.width,
            (i + 1) * t.width,
            t.count as int,
        );
        assert(b0 <= b1);
        let sw = b1 - b0;
        vstd::arithmetic::div_mod::lemma_div_pos_is_pos(sw as int, 10);
        vstd::arithmetic::div_mod::lemma_fundamental_div_mod(sw as int, 10);
        vstd::arithmetic::div_mod::lemma_mod_division_less_than_divisor(sw as int, 10);
        assert(10 * (sw as int / 10) <= sw);
    }
    let sw = b1 - b0;
    let frac = ((sw as u64) / 10) as i64;
    (b0 + frac, b1 - frac)
}

fn wick_edges(t: &TimeScale, i: usize) -> (e: (i64, i64))
    requires
        time_scale_wf(*t),
        i < t.count,
    ensures
        e.0 == spec_wick_left(*t, i as int),
        e.1 == spec_wick_right(*t, i as int),
        0 <= e.0 <= e.1 <= t.width,
{
    let b0 = slot_bound(t, i);
    let b1 = slot_bound(t, i + 1);
    proof {
        vstd::arithmetic::mul::lemma_mul_inequality(i as int, i + 1, t.width as int);
        vstd::arithmetic::div_mod::lemma_div_is_ordered(
            i * t.width,
            (i + 1) * t.width,
            t.count as int,
        );
        assert(b0 <= b1);
        let sw = b1 - b0;
        vstd::arithmetic::div_mod::lemma_div_pos_is_pos(sw * 15, 100);
        vstd::arithmetic::div_mod::lemma_multiply_divide_le(sw * 15, 100, sw as int);
        let w15 = sw as int * 15 / 100;
        vstd::arithmetic::div_mod::lemma_div_pos_is_pos(sw - w15, 2);
        vstd::arithmetic::div_mod::lemma_fundamental_div_mod(sw - w15, 2);
        vstd::arithmetic::div_mod::lemma_mod_division_less_than_divisor(sw - w15, 2);
        assert(2 * ((sw - w15) / 2) <= sw - w15);
    }
    let sw = b1 - b0;
    let w15 = (((sw as u64) * 15) / 100) as i64;
    let wl = b0 + (((sw - w15) as u64) / 2) as i64;
    (wl, wl + w15)
}

// ─── Volume bars ────────────────────────────────────────────────────────

/// Volume bar of candle `i`: 80% of its slot wide, from the band bottom up
/// to its volume's height, in its resolved volume color at 80% opacity.
pub open spec fn spec_volume_bar(
    plot: Region,
    t: TimeScale,
    p: PriceScale,
    max_volume: u64,
    c: Candle,
    i: int,
) -> Primitive {
    Primitive::Rect {
        x0: spec_x_of_offset(plot, t, spec_bar_left(t, i)) as i64,
        y0: spec_y_of_log(plot, p, p.min_log as int) as i64,
        x1: spec_x_of_offset(plot, t, spec_bar_right(t, i)) as i64,
        y1: spec_y_of_log(plot, p, spec_volume_log(p, max_volume, c.volume)) as i64,
        color: c.volume_color,
        alpha_pct: VOLUME_ALPHA_PCT,
    }
}

/// The volume layer: one bar per candle, in candle order.
pub open spec fn volume_seq(
    plot: Region,
    t: TimeScale,
    p: PriceScale,
    max_volume: u64,
    cs: Seq<Candle>,
) -> Seq<Primitive> {
    Seq::new(cs.len(), |i: int| spec_volume_bar(plot, t, p, max_volume, cs[i], i))
}

/// Appends the volume layer to the display list.
pub fn push_volume_bars(
    out: &mut Vec<Primitive>,
    plot: &Region,
    t: &TimeScale,
    p: &PriceScale,
    s: &RenderStats,
    cs: &Vec<Candle>,
)
    requires
        series_ctx_wf(*plot, *t, *p, *s, cs@),
    ensures
        final(out)@ == old(out)@ + volume_seq(*plot, *t, *p, s.max_volume, cs@),
{
    let ghost vseq = volume_seq(*plot, *t, *p, s.max_volume, cs@);
    let n = cs.len();
    let mut i: usize = 0;
    while i < n
        invariant
            i <= n,
            n == cs@.len(),
            series_ctx_wf(*plot, *t, *p, *s, cs@),
            vseq == volume_seq(*plot, *t, *p, s.max_volume, cs@),
            out@ == old(out)@ + vseq.take(i as int),
        decreases n - i,
    {
        proof {
            assert(candle_within_stats(cs@[i as int], *s));
        }
        let e = bar_edges(t, i);
        let x0 = x_of_offset(plot, t, e.0);
        let x1 = x_of_offset(plot, t, e.1);
        let y0 = y_of_log(plot, p, p.min_log);
        let vy = volume_log(p, s.max_volume, cs[i].volume);
        let y1 = y_of_log(plot, p, vy);
        let pr = Primitive::Rect {
            x0,
            y0,
            x1,
            y1,
            color: cs[i].volume_color,
            alpha_pct: VOLUME_ALPHA_PCT,
        };
        proof {
            assert(vseq.take(i + 1) =~= vseq.take(i as int).push(vseq[i as int]));
        }
        out.push(pr);
        i = i + 1;
    }
    proof {
        assert(vseq.take(n as int) =~= vseq);
    }
}

// ─── Wicks ──────────────────────────────────────────────────────────────

/// Wick of candle `i`: a thin fixed dark-gray rectangle spanning its low to
/// high log-prices, 15% of the slot wide.
pub open spec fn spec_wick(
    plot: Region,
    t: TimeScale,
    p: PriceScale,
    c: Candle,
    i: int,
) -> Primitive {
    Primitive::Rect {
        x0: spec_x_of_offset(plot, t, spec_wick_left(t, i)) as i64,
        y0: spec_y_of_log(plot, p, c.log_high as int) as i64,
        x1: spec_x_of_offset(plot, t, spec_wick_right(t, i)) as i64,
        y1: spec_y_of_log(plot, p, c.log_low as int) as i64,
        color: Rgb { r: 80, g: 80, b: 80 },
        alpha_pct: 100,
    }
}

/// The wick layer: one wick per candle, in candle order.
pub open spec fn wick_seq(
    plot: Region,
    t: TimeScale,
    p: PriceScale,
    cs: Seq<Candle>,
) -> Seq<Primitive> {
    Seq::new(cs.len(), |i: int| spec_wick(plot, t, p, cs[i], i))
}

/// Appends the wick layer to the display list (before bodies, which cap
/// them).
pub fn push_wicks(
    out: &mut Vec<Primitive>,
    plot: &Region,
    t: &TimeScale,
    p: &PriceScale,
    s: &RenderStats,
    cs: &Vec<Candle>,
)
    requires
        series_ctx_wf(*plot, *t, *p, *s, cs@),
    ensures
        final(out)@ == old(out)@ + wick_seq(*plot, *t, *p, cs@),
{
    let ghost wseq = wick_seq(*plot, *t, *p, cs@);
    let n = cs.len();
    let mut i: usize = 0;
    while i < n
        invariant
            i <= n,
            n == cs@.len(),
            series_ctx_wf(*plot, *t, *p, *s, cs@),
            wseq == wick_seq(*plot, *t, *p, cs@),
            out@ == old(out)@ + wseq.take(i as int),
        decreases n - i,
    {
        proof {
            assert(candle_within_stats(cs@[i as int], *s));
        }
        let e = wick_edges(t, i);
        let x0 = x_of_offset(plot, t, e.0);
        let x1 = x_of_offset(plot, t, e.1);
        let y0 = y_of_log(plot, p, cs[i].log_high);
        let y1 = y_of_log(plot, p, cs[i].log_low);
        let pr = Primitive::Rect {
            x0,
            y0,
            x1,
            y1,
            color: Rgb { r: 80, g: 80, b: 80 },
            alpha_pct: 100,
        };
        proof {
            assert(wseq.take(i + 1) =~= wseq.take(i as int).push(wseq[i as int]));
        }
        out.push(pr);
        i = i + 1;
    }
    proof {
        assert(wseq.take(n as int) =~= wseq);
    }
}

// ─── Bodies ─────────────────────────────────────────────────────────────

/// The higher of a candle's open and close log-prices.
pub open spec fn body_top_log(c: Candle) -> int {
    if c.log_open >= c.log_close {
        c.log_open as int
    } else {
        c.log_close as int
    }
}

/// The lower of a candle's open and close log-prices.
pub open spec fn body_bottom_log(c: Candle) -> int {
    if c.log_open >= c.log_close {
        c.log_close as int
    } else {
        c.log_open as int
    }
}

/// Body of candle `i`: 80% of its slot wide, spanning its open and close
/// log-prices, in its resolved body color.
pub open spec fn spec_body(
    plot: Region,
    t: TimeScale,
    p: PriceScale,
    c: Candle,
    i: int,
) -> Primitive {
    Primitive::Rect {
        x0: spec_x_of_offset(plot, t, spec_bar_left(t, i)) as i64,
        y0: spec_y_of_log(plot, p, body_top_log(c)) as i64,
        x1: spec_x_of_offset(plot, t, spec_bar_right(t, i)) as i64,
        y1: spec_y_of_log(plot, p, body_bottom_log(c)) as i64,
        color: c.body_color,
        alpha_pct: 100,
    }
}

/// The body layer: one body per candle, in candle order.
pub open spec fn body_seq(
    plot: Region,
    t: TimeScale,
    p: PriceScale,
    cs: Seq<Candle>,
) -> Seq<Primitive> {
    Seq::new(cs.len(), |i: int| spec_body(plot, t, p, cs[i], i))
}

/// Appends the body layer to the display list.
pub fn push_bodies(
    out: &mut Vec<Primitive>,
    plot: &Region,
    t: &TimeScale,
    p: &PriceScale,
    s: &RenderStats,
    cs: &Vec<Candle>,
)
    requires
        series_ctx_wf(*plot, *t, *p, *s, cs@),
    ensures
        final(out)@ == old(out)@ + body_seq(*plot, *t, *p, cs@),
{
    let ghost bseq = body_seq(*plot, *t, *p, cs@);
    let n = cs.len();
    let mut i: usize = 0;
    while i < n
        invariant
            i <= n,
            n == cs@.len(),
            series_ctx_wf(*plot, *t, *p, *s, cs@),
            bseq == body_seq(*plot, *t, *p, cs@),
            out@ == old(out)@ + bseq.take(i as int),
        decreases n - i,
    {
        proof {
            assert(candle_within_stats(cs@[i as int], *s));
        }
        let e = bar_edges(t, i);
        let x0 = x_of_offset(plot, t, e.0);
        let x1 = x_of_offset(plot, t, e.1);
        let top = if cs[i].log_open >= cs[i].log_close {
            cs[i].log_open
        } else {
            cs[i].log_close
        };
        let bottom = if cs[i].log_open >= cs[i].log_close {
            cs[i].log_close
        } else {
            cs[i].log_open
        };
        let y0 = y_of_log(plot, p, top);
        let y1 = y_of_log(plot, p, bottom);
        let pr = Primitive::Rect { x0, y0, x1, y1, color: cs[i].body_color, alpha_pct: 100 };
        proof {
            assert(bseq.take(i + 1) =~= bseq.take(i as int).push(bseq[i as int]));
        }
        out.push(pr);
        i = i + 1;
    }
    proof {
        assert(bseq.take(n as int) =~= bseq);
    }
}

// ─── Current-price reference line ───────────────────────────────────────

/// The last candle's direction color: green when it closes at or above its
/// open, red otherwise.
pub open spec fn spec_direction_color(last: Candle) -> Rgb {
    if last.close >= last.open {
        crate::color::spec_up_green()
    } else {
        crate::color::spec_down_red()
    }
}

/// The current-price reference line: a single horizontal line at the last
/// candle's close log-price spanning the full time domain, in the direction
/// color.
pub open spec fn spec_price_line(plot: Region, p: PriceScale, last: Candle) -> Primitive {
    Primitive::Line {
        x0: plot.x,
        y0: spec_y_of_log(plot, p, last.log_close as int) as i64,
        x1: (plot.x + plot.w) as i64,
        y1: spec_y_of_log(plot, p, last.log_close as int) as i64,
        color: spec_direction_color(last),
    }
}

/// Appends the current-price line to the display list.
pub fn push_price_line(
    out: &mut Vec<Primitive>,
    plot: &Region,
    p: &PriceScale,
    s: &RenderStats,
    cs: &Vec<Candle>,
)
    requires
        region_wf(*plot),
        price_scale_wf(*p),
        p.min_log == s.min_log,
        p.max_log == s.max_log,
        cs@.len() > 0,
        stats_exact(cs@, *s),
    ensures
        final(out)@ == old(out)@ + seq![spec_price_line(*plot, *p, cs@[cs@.len() - 1])],
{
    let n = cs.len();
    let last = &cs[n - 1];
    proof {
        assert(candle_within_stats(cs@[n - 1], *s));
    }
    let y = y_of_log(plot, p, last.log_close);
    let color = if last.close >= last.open {
        crate::color::up_green()
    } else {
        crate::color::down_red()
    };
    let pr = Primitive::Line { x0: plot.x, y0: y, x1: plot.x + plot.w, y1: y, color };
    out.push(pr);
    proof {
        assert(out@ =~= old(out)@ + seq![spec_price_line(*plot, *p, cs@[cs@.len() - 1])]);
    }
}

} // verus!
