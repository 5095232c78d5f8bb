//! MarkerRenderer: snaps each marker to its anchor candle and draws a
//! directional triangle plus an optional label.
//!
//! A marker anchors to the candle closest to it in time (the earliest such
//! candle on a tie), and only when the distance is strictly less than half
//! the average candle spacing, compared exactly (`2 * distance * count <
//! last_offset`) so the floored average never decides — otherwise the
//! marker is silently dropped.
//! An `Above` marker sits over the candle's high and points down toward it;
//! a `Below` marker mirrors that under the candle's low.

use vstd::prelude::*;
use crate::color::{Rgb, spec_mid_gray, mid_gray, strip_hash, valid_hex6, hex_rgb, pick_from_hex};
use crate::model::{Candle, Mark, MarkPosition, RenderStats, mark_valid, candle_valid,
    TIME_ABS_MAX};
use crate::layout::{Region, region_wf};
use crate::scale::{
    TimeScale, PriceScale, time_scale_wf, price_scale_wf, log_range, spec_slot_bound, slot_bound,
    spec_x_of_offset, x_of_offset, spec_y_of_log, y_of_log,
};
use crate::series::{series_ctx_wf, spec_slot_width};
use crate::normalize::candle_within_stats;
use crate::scene::Primitive;

verus! {

/// Distance between two timestamps.
pub open spec fn time_dist(a: int, b: int) -> int {
    if a >= b {
        a - b
    } else {
        b - a
    }
}

/// Index of the candle closest in time to `mt` among the first `k` candles,
/// the earliest on a tie.
pub open spec fn closest_prefix(cs: Seq<Candle>, mt: int, k: int) -> int
    decreases k,
{
    if k <= 1 {
        0
    } else {
        let r = closest_prefix(cs, mt, k - 1);
        if time_dist(cs[k - 1].time as int, mt) < time_dist(cs[r].time as int, mt) {
            k - 1
        } else {
            r
        }
    }
}

/// A distance strictly within half the average candle spacing
/// `last_offset / count`, compared exactly: `dist < (last_offset/count)/2`
/// without flooring the average.
pub open spec fn snap_accepts(dist: int, last_offset: int, count: int) -> bool {
    2 * dist * count < last_offset
}

/// The anchor candle of a marker at time `mt`: the closest candle, accepted
/// only when strictly nearer than half the average candle spacing of a
/// domain that spans `last_offset` over `cs.len()` candles.
pub open spec fn spec_snap(cs: Seq<Candle>, last_offset: int, mt: int) -> Option<int> {
    let k = closest_prefix(cs, mt, cs.len() as int);
    if snap_accepts(time_dist(cs[k].time as int, mt), last_offset, cs.len() as int) {
        Some(k)
    } else {
        None
    }
}

/// The closest-candle index is in range and no candle in the prefix is
/// strictly nearer; earlier candles are strictly farther (tie-breaking).
pub proof fn lemma_closest_prefix(cs: Seq<Candle>, mt: int, k: int)
    requires
        1 <= k <= cs.len(),
    ensures
        0 <= closest_prefix(cs, mt, k) < k,
        forall|j: int|
            0 <= j < k ==> time_dist(cs[closest_prefix(cs, mt, k)].time as int, mt) <= time_dist(
                #[trigger] cs[j].time as int,
                mt,
            ),
    decreases k,
{
    if k > 1 {
        lemma_closest_prefix(cs, mt, k - 1);
    }
}

/// A marker at least half the average candle spacing away from every candle
/// snaps to none of them: it is dropped.
pub proof fn lemma_far_marker_dropped(cs: Seq<Candle>, last_offset: int, mt: int)
    requires
        cs.len() > 0,
        forall|j: int|
            0 <= j < cs.len() ==> !snap_accepts(
                time_dist(#[trigger] cs[j].time as int, mt),
                last_offset,
                cs.len() as int,
            ),
    ensures
        spec_snap(cs, last_offset, mt) is None,
{
    lemma_closest_prefix(cs, mt, cs.len() as int);
}

/// A marker at least half the average candle spacing away from every candle
/// contributes nothing to the display list.
pub proof fn lemma_far_marker_no_prims(
    plot: Region,
    t: TimeScale,
    p: PriceScale,
    cs: Seq<Candle>,
    m: Mark,
)
    requires
        cs.len() > 0,
        forall|j: int|
            0 <= j < cs.len() ==> !snap_accepts(
                time_dist(#[trigger] cs[j].time as int, m.time as int),
                t.last_offset as int,
                cs.len() as int,
            ),
    ensures
        spec_mark_prims(plot, t, p, cs, m) == Seq::<Primitive>::empty(),
{
    lemma_far_marker_dropped(cs, t.last_offset as int, m.time as int);
}

fn dist64(a: i64, b: i64) -> (d: i64)
    requires
        -TIME_ABS_MAX <= a <= TIME_ABS_MAX,
        -TIME_ABS_MAX <= b <= TIME_ABS_MAX,
    ensures
        d == time_dist(a as int, b as int),
        0 <= d <= 2 * TIME_ABS_MAX,
{
    if a >= b {
        a - b
    } else {
        b - a
    }
}

/// Finds the marker's anchor candle: the candle closest in time (earliest
/// on a tie), accepted only when strictly nearer than half the average
/// spacing `last_offset / cs.len()`, compared without flooring.
pub fn snap_mark(cs: &Vec<Candle>, last_offset: i64, mt: i64) -> (r: Option<usize>)
    requires
        cs@.len() > 0,
        0 <= last_offset,
        forall|i: int| 0 <= i < cs@.len() ==> candle_valid(#[trigger] cs@[i]),
        -TIME_ABS_MAX <= mt <= TIME_ABS_MAX,
    ensures
        match r {
            Some(k) => spec_snap(cs@, last_offset as int, mt as int) == Some(k as int),
            None => spec_snap(cs@, last_offset as int, mt as int) is None,
        },
{
    let n = cs.len();
    let mut best: usize = 0;
    let mut i: usize = 1;
    while i < n
        invariant
            1 <= i <= n,
            n == cs@.len(),
            best < i,
            forall|j: int| 0 <= j < cs@.len() ==> candle_valid(#[trigger] cs@[j]),
            -TIME_ABS_MAX <= mt <= TIME_ABS_MAX,
            best == closest_prefix(cs@, mt as int, i as int),
        decreases n - i,
    {
        let di = dist64(cs[i].time, mt);
        let db = dist64(cs[best].time, mt);
        if di < db {
            best = i;
        }
        i = i + 1;
    }
    let d = dist64(cs[best].time, mt);
    proof {
        vstd::arithmetic::mul::lemma_mul_upper_bound(
            2 * (d as int),
            4 * (TIME_ABS_MAX as int),
            n as int,
            u64::MAX as int,
        );
    }
    if 2 * (d as u128) * (n as u128) < (last_offset as u128) {
        Some(best)
    } else {
        None
    }
}

/// Vertical marker offset from its anchor, in micro-nats: 2% of the padded
/// log-price range, scaled by the marker's size factor.
pub open spec fn spec_mark_offset(p: PriceScale, m: Mark) -> int {
    log_range(p) * 2 * (m.size_milli as int) / 100_000
}

/// Center of candle slot `i` in time-domain units.
pub open spec fn spec_slot_center(t: TimeScale, i: int) -> int {
    (spec_slot_bound(t, i) + spec_slot_bound(t, i + 1)) / 2
}

/// Half-width of a marker triangle in time-domain units: a third of the
/// slot width, scaled by the marker's size factor.
pub open spec fn spec_mark_half_width(t: TimeScale, i: int, m: Mark) -> int {
    spec_slot_width(t, i) * (m.size_milli as int) / 3000
}

/// Half-height of a marker triangle in pixels, scaled by the size factor.
pub open spec fn spec_tri_half_h(m: Mark) -> int {
    6 * (m.size_milli as int) / 1000
}

/// Label font size: `12 x size`, floored at 8.
pub open spec fn spec_font_size(m: Mark) -> int {
    if 12 * (m.size_milli as int) / 1000 >= 8 {
        12 * (m.size_milli as int) / 1000
    } else {
        8
    }
}

/// The marker's color: its hex string, mid-gray when malformed.
pub open spec fn spec_mark_color(m: Mark) -> Rgb {
    if valid_hex6(strip_hash(m.color@)) {
        hex_rgb(strip_hash(m.color@))
    } else {
        spec_mid_gray()
    }
}

/// Horizontal pixel extent of a time-domain span.
pub open spec fn spec_dx_of_span(plot: Region, t: TimeScale, span: int) -> int {
    span * plot.w / (t.width as int)
}

fn dx_of_span(plot: &Region, t: &TimeScale, span: i64) -> (dx: i64)
    requires
        region_wf(*plot),
        time_scale_wf(*t),
        0 <= span <= 100 * t.width,
    ensures
        dx == spec_dx_of_span(*plot, *t, span as int),
        0 <= dx <= 100 * plot.w,
{
    proof {
        vstd::arithmetic::mul::lemma_mul_upper_bound(
            span as int,
            u64::MAX as int,
            plot.w as int,
            u64::MAX as int,
        );
        vstd::arithmetic::div_mod::lemma_div_pos_is_pos(span * plot.w, t.width as int);
        vstd::arithmetic::mul::lemma_mul_inequality(span as int, 100 * t.width, plot.w as int);
        assert((100 * t.width) * plot.w == (t.width as int) * (100 * plot.w)) by (nonlinear_arith);
        vstd::arithmetic::div_mod::lemma_multiply_divide_le(
            span * plot.w,
            t.width as int,
            100 * plot.w,
        );
    }
    (((span as u128) * (plot.w as u128)) / (t.width as u128)) as i64
}

/// The triangle of a snapped marker anchored to candle `c` in slot `k`. An
/// `Above` marker's triangle is centered one marker offset over the high and
/// its apex points down toward the candle; `Below` mirrors it under the low.
pub open spec fn spec_mark_triangle(
    plot: Region,
    t: TimeScale,
    p: PriceScale,
    c: Candle,
    k: int,
    m: Mark,
) -> Primitive {
    let cx = spec_x_of_offset(plot, t, spec_slot_center(t, k));
    let hw = spec_dx_of_span(plot, t, spec_mark_half_width(t, k, m));
    let hh = spec_tri_half_h(m);
    match m.position {
        MarkPosition::Above => {
            let cy = spec_y_of_log(plot, p, c.log_high + spec_mark_offset(p, m));
            Primitive::Triangle {
                x0: cx as i64,
                y0: (cy + hh) as i64,
                x1: (cx - hw) as i64,
                y1: (cy - hh) as i64,
                x2: (cx + hw) as i64,
                y2: (cy - hh) as i64,
                color: spec_mark_color(m),
            }
        },
        MarkPosition::Below => {
            let cy = spec_y_of_log(plot, p, c.log_low - spec_mark_offset(p, m));
            Primitive::Triangle {
                x0: cx as i64,
                y0: (cy - hh) as i64,
                x1: (cx - hw) as i64,
                y1: (cy + hh) as i64,
                x2: (cx + hw) as i64,
                y2: (cy + hh) as i64,
                color: spec_mark_color(m),
            }
        },
    }
}

/// The label of a snapped marker, drawn at 1.2 marker offsets from the
/// anchor in the marker's color.
pub open spec fn spec_mark_text(
    plot: Region,
    t: TimeScale,
    p: PriceScale,
    c: Candle,
    k: int,
    m: Mark,
    content: String,
) -> Primitive {
    let cx = spec_x_of_offset(plot, t, spec_slot_center(t, k));
    let ty = match m.position {
        MarkPosition::Above => spec_y_of_log(
            plot,
            p,
            c.log_high + spec_mark_offset(p, m) * 12 / 10,
        ),
        MarkPosition::Below => spec_y_of_log(
            plot,
            p,
            c.log_low - spec_mark_offset(p, m) * 12 / 10,
        ),
    };
    Primitive::Text {
        x: cx as i64,
        y: ty as i64,
        font_size: spec_font_size(m) as u32,
        color: spec_mark_color(m),
        content,
    }
}

/// Everything one marker adds to the display list: nothing when it snaps to
/// no candle; otherwise its triangle, then its label if it has one.
pub open spec fn spec_mark_prims(
    plot: Region,
    t: TimeScale,
    p: PriceScale,
    cs: Seq<Candle>,
    m: Mark,
) -> Seq<Primitive> {
    match spec_snap(cs, t.last_offset as int, m.time as int) {
        None => Seq::empty(),
        Some(k) => {
            let tri = seq![spec_mark_triangle(plot, t, p, cs[k], k, m)];
            match m.text {
                Some(content) => tri.push(spec_mark_text(plot, t, p, cs[k], k, m, content)),
                None => tri,
            }
        },
    }
}

/// The marker layer: each marker's primitives, in marker order.
pub open spec fn markers_seq(
    plot: Region,
    t: TimeScale,
    p: PriceScale,
    cs: Seq<Candle>,
    marks: Seq<Mark>,
) -> Seq<Primitive>
    decreases marks.len(),
{
    if marks.len() == 0 {
        Seq::empty()
    } else {
        markers_seq(plot, t, p, cs, marks.drop_last()) + spec_mark_prims(
            plot,
            t,
            p,
            cs,
            marks.last(),
        )
    }
}

fn slot_center(t: &TimeScale, i: usize) -> (c: i64)
    requires
        time_scale_wf(*t),
        i < t.count,
    ensures
        c == spec_slot_center(*t, i as int),
        0 <= c <= t.width,
{
    let b0 = slot_bound(t, i);
    let b1 = slot_bound(t, i + 1);
    proof {
        vstd::arithmetic::div_mod::lemma_div_pos_is_pos((b0 + b1) as int, 2);
        vstd::arithmetic::div_mod::lemma_fundamental_div_mod((b0 + b1) as int, 2);
        vstd::arithmetic::div_mod::lemma_mod_division_less_than_divisor((b0 + b1) as int, 2);
    }
    (((b0 + b1) as u64) / 2) as i64
}

/// Appends one marker's primitives to the display list.
fn push_mark(
    out: &mut Vec<Primitive>,
    plot: &Region,
    t: &TimeScale,
    p: &PriceScale,
    s: &RenderStats,
    cs: &Vec<Candle>,
    m: &Mark,
)
    requires
        series_ctx_wf(*plot, *t, *p, *s, cs@),
        mark_valid(*m),
        forall|i: int| 0 <= i < cs@.len() ==> candle_valid(#[trigger] cs@[i]),
    ensures
        final(out)@ == old(out)@ + spec_mark_prims(*plot, *t, *p, cs@, *m),
{
    let snapped = snap_mark(cs, t.last_offset, m.time);
    match snapped {
        None => {
            proof {
                assert(out@ =~= old(out)@ + spec_mark_prims(*plot, *t, *p, cs@, *m));
            }
        },
        Some(k) => {
            proof {
                lemma_closest_prefix(cs@, m.time as int, cs@.len() as int);
                assert(candle_within_stats(cs@[k as int], *s));
            }
            let c = &cs[k];
            let color = pick_from_hex(m.color.as_str(), mid_gray());
            let cx_t = slot_center(t, k);
            let cx = x_of_offset(plot, t, cx_t);
            let range = p.max_log_padded - p.min_log;
            proof {
                let r = range as int;
                let s = m.size_milli as int;
                vstd::arithmetic::div_mod::lemma_div_pos_is_pos(r * 2 * s, 100_000);
                assert(r * 2 * s <= 100_000 * (2 * r)) by (nonlinear_arith)
                    requires
                        r >= 0,
                        s <= 100_000,
                ;
                vstd::arithmetic::div_mod::lemma_multiply_divide_le(r * 2 * s, 100_000, 2 * r);
            }
            let off = (((range as u64) * 2 * m.size_milli) / 100_000) as i64;
            let b0 = slot_bound(t, k);
            let b1 = slot_bound(t, k + 1);
            proof {
                vstd::arithmetic::mul::lemma_mul_inequality(k as int, k + 1, t.width as int);
                vstd::arithmetic::div_mod::lemma_div_is_ordered(
                    k * t.width,
                    (k + 1) * t.width,
                    t.count as int,
                );
                let sw = (b1 - b0) as int;
                let s = m.size_milli as int;
                vstd::arithmetic::div_mod::lemma_div_pos_is_pos(sw * s, 3000);
                assert(sw * s <= 3000 * (34 * sw)) by (nonlinear_arith)
                    requires
                        sw >= 0,
                        s <= 100_000,
                ;
                vstd::arithmetic::div_mod::lemma_multiply_divide_le(sw * s, 3000, 34 * sw);
            }
            let sw = b1 - b0;
            let hw_t = (((sw as u128) * (m.size_milli as u128)) / 3000) as i64;
            let hw = dx_of_span(plot, t, hw_t);
            let hh = (6 * m.size_milli / 1000) as i64;
            let fs0 = 12 * m.size_milli / 1000;
            let fs: u32 = if fs0 >= 8 {
                fs0 as u32
            } else {
                8
            };
            let tri = match m.position {
                MarkPosition::Above => {
                    let cy = y_of_log(plot, p, c.log_high + off);
                    Primitive::Triangle {
                        x0: cx,
                        y0: cy + hh,
                        x1: cx - hw,
                        y1: cy - hh,
                        x2: cx + hw,
                        y2: cy - hh,
                        color,
                    }
                },
                MarkPosition::Below => {
                    let cy = y_of_log(plot, p, c.log_low - off);
                    Primitive::Triangle {
                        x0: cx,
                        y0: cy - hh,
                        x1: cx - hw,
                        y1: cy + hh,
                        x2: cx + hw,
                        y2: cy + hh,
                        color,
                    }
                },
            };
            out.push(tri);
            match &m.text {
                None => {
                    proof {
                        assert(out@ =~= old(out)@ + spec_mark_prims(*plot, *t, *p, cs@, *m));
                    }
                },
                Some(content) => {
                    proof {
                        let o = spec_mark_offset(*p, *m);
                        let r = log_range(*p);
                        vstd::arithmetic::div_mod::lemma_div_pos_is_pos(o * 12, 10);
                        assert(o * 12 <= 10 * (3 * r));
                        vstd::arithmetic::div_mod::lemma_multiply_divide_le(o * 12, 10, 3 * r);
                    }
                    let toff = (((off as u64) * 12) / 10) as i64;
                    let ty = match m.position {
                        MarkPosition::Above => y_of_log(plot, p, c.log_high + toff),
                        MarkPosition::Below => y_of_log(plot, p, c.log_low - toff),
                    };
                    let txt = Primitive::Text {
                        x: cx,
                        y: ty,
                        font_size: fs,
                        color,
                        content: content.clone(),
                    };
                    out.push(txt);
                    proof {
                        assert(out@ =~= old(out)@ + spec_mark_prims(*plot, *t, *p, cs@, *m));
                    }
                },
            }
        },
    }
}

/// Appends the marker layer to the display list.
pub fn push_markers(
    out: &mut Vec<Primitive>,
    plot: &Region,
    t: &TimeScale,
    p: &PriceScale,
    s: &RenderStats,
    cs: &Vec<Candle>,
    marks: &Vec<Mark>,
)
    requires
        series_ctx_wf(*plot, *t, *p, *s, cs@),
        forall|i: int| 0 <= i < cs@.len() ==> candle_valid(#[trigger] cs@[i]),
        forall|i: int| 0 <= i < marks@.len() ==> mark_valid(#[trigger] marks@[i]),
    ensures
        final(out)@ == old(out)@ + markers_seq(*plot, *t, *p, cs@, marks@),
{
    let n = marks.len();
    let mut i: usize = 0;
    while i < n
        invariant
            i <= n,
            n == marks@.len(),
            series_ctx_wf(*plot, *t, *p, *s, cs@),
            forall|j: int| 0 <= j < cs@.len() ==> candle_valid(#[trigger] cs@[j]),
            forall|j: int| 0 <= j < marks@.len() ==> mark_valid(#[trigger] marks@[j]),
            out@ == old(out)@ + markers_seq(*plot, *t, *p, cs@, marks@.take(i as int)),
        decreases n - i,
    {
        proof {
            assert(candle_within_stats(cs@[0], *s));
        }
        push_mark(out, plot, t, p, s, cs, &marks[i]);
        proof {
            assert(marks@.take(i + 1).drop_last() =~= marks@.take(i as int));
            assert(marks@.take(i + 1).last() == marks@[i as int]);
        }
        i = i + 1;
    }
    proof {
        assert(marks@.take(n as int) =~= marks@);
    }
}

} // verus!
