//! LayoutEngine: partitions the canvas into title, summary-table and chart
//! bands and reserves the axis-label margins.
//!
//! Region sizes are computed once and reused by every renderer; no renderer
//! recomputes canvas geometry on its own. Price labels sit in a right margin
//! (next to the most recent candle), time labels in a bottom margin.

use vstd::prelude::*;

verus! {

/// Upper bound on any pixel dimension handled by the layout.
pub const PIXEL_MAX: i64 = 100_000;

/// Canvas width used by the rendering pipeline.
pub const CANVAS_W: i64 = 1024;

/// Canvas height used by the rendering pipeline.
pub const CANVAS_H: i64 = 768;

/// Height of the title band at the top of the canvas.
pub const TITLE_BAND_H: i64 = 40;

/// Height of the summary-table band below the title.
pub const SUMMARY_BAND_H: i64 = 96;

/// Horizontal inset of the summary table, in percent of the canvas width,
/// applied on each side.
pub const SUMMARY_INSET_PCT: i64 = 15;

/// Width of the right margin reserved for price-axis tick labels.
pub const PRICE_LABEL_MARGIN: i64 = 60;

/// Height of the bottom margin reserved for time-axis tick labels.
pub const TIME_LABEL_MARGIN: i64 = 80;

/// An axis-aligned pixel rectangle: origin and extent.
#[derive(Clone, Copy, PartialEq, Eq, Structural, Debug)]
pub struct Region {
    pub x: i64,
    pub y: i64,
    pub w: i64,
    pub h: i64,
}

/// A region with positive extent inside the bounded pixel space.
pub open spec fn region_wf(r: Region) -> bool {
    &&& 0 <= r.x <= PIXEL_MAX
    &&& 0 <= r.y <= PIXEL_MAX
    &&& 0 < r.w <= PIXEL_MAX
    &&& 0 < r.h <= PIXEL_MAX
}

/// The canvas partition: three stacked bands, and the plot area left inside
/// the chart band once the axis-label margins are taken out.
#[derive(Clone, Copy, PartialEq, Eq, Structural, Debug)]
pub struct Layout {
    pub canvas_w: i64,
    pub canvas_h: i64,
    pub title: Region,
    pub summary: Region,
    pub chart_band: Region,
    pub plot: Region,
}

/// The bands tile the canvas height exactly, in order title, summary, chart;
/// the summary band is inset by the margin fraction on each side; the plot
/// area is the chart band minus the right and bottom label margins.
pub open spec fn layout_wf(l: Layout) -> bool {
    &&& 300 <= l.canvas_w <= PIXEL_MAX
    &&& 300 <= l.canvas_h <= PIXEL_MAX
    &&& l.title.x == 0 && l.title.y == 0 && l.title.w == l.canvas_w && l.title.h == TITLE_BAND_H
    &&& l.summary.x == l.canvas_w * SUMMARY_INSET_PCT / 100
    &&& l.summary.y == TITLE_BAND_H
    &&& l.summary.w == l.canvas_w - 2 * (l.canvas_w * SUMMARY_INSET_PCT / 100)
    &&& l.summary.h == SUMMARY_BAND_H
    &&& l.chart_band.x == 0
    &&& l.chart_band.y == TITLE_BAND_H + SUMMARY_BAND_H
    &&& l.chart_band.w == l.canvas_w
    &&& l.chart_band.h == l.canvas_h - TITLE_BAND_H - SUMMARY_BAND_H
    &&& l.plot.x == 0
    &&& l.plot.y == TITLE_BAND_H + SUMMARY_BAND_H
    &&& l.plot.w == l.canvas_w - PRICE_LABEL_MARGIN
    &&& l.plot.h == l.canvas_h - TITLE_BAND_H - SUMMARY_BAND_H - TIME_LABEL_MARGIN
    &&& region_wf(l.title)
    &&& region_wf(l.summary)
    &&& region_wf(l.chart_band)
    &&& region_wf(l.plot)
}

/// Partitions a canvas into the title, summary and chart bands and reserves
/// the axis-label margins. The three band heights sum exactly to the canvas
/// height.
pub fn make_layout(canvas_w: i64, canvas_h: i64) -> (l: Layout)
    requires
        300 <= canvas_w <= PIXEL_MAX,
        300 <= canvas_h <= PIXEL_MAX,
    ensures
        layout_wf(l),
        l.canvas_w == canvas_w,
        l.canvas_h == canvas_h,
        l.title.h + l.summary.h + l.chart_band.h == canvas_h,
{
    let inset: i64 = ((canvas_w as u64) * (SUMMARY_INSET_PCT as u64) / 100) as i64;
    proof {
        let w = canvas_w as int;
        assert(inset == w * SUMMARY_INSET_PCT / 100);
        assert(0 <= inset && 2 * inset < canvas_w) by {
            vstd::arithmetic::div_mod::lemma_div_pos_is_pos(15 * w, 100);
            vstd::arithmetic::div_mod::lemma_div_is_ordered(15 * w, 50 * (w - 1), 100);
            vstd::arithmetic::div_mod::lemma_div_denominator(50 * (w - 1), 50, 2);
            vstd::arithmetic::div_mod::lemma_div_multiples_vanish(w - 1, 50);
            assert(15 * w / 100 <= (w - 1) / 2);
            vstd::arithmetic::div_mod::lemma_fundamental_div_mod(w - 1, 2);
            vstd::arithmetic::div_mod::lemma_mod_division_less_than_divisor(w - 1, 2);
            assert(2 * ((w - 1) / 2) <= w - 1);
        };
    }
    Layout {
        canvas_w,
        canvas_h,
        title: Region { x: 0, y: 0, w: canvas_w, h: TITLE_BAND_H },
        summary: Region { x: inset, y: TITLE_BAND_H, w: canvas_w - 2 * inset, h: SUMMARY_BAND_H },
        chart_band: Region {
            x: 0,
            y: TITLE_BAND_H + SUMMARY_BAND_H,
            w: canvas_w,
            h: canvas_h - TITLE_BAND_H - SUMMARY_BAND_H,
        },
        plot: Region {
            x: 0,
            y: TITLE_BAND_H + SUMMARY_BAND_H,
            w: canvas_w - PRICE_LABEL_MARGIN,
            h: canvas_h - TITLE_BAND_H - SUMMARY_BAND_H - TIME_LABEL_MARGIN,
        },
    }
}

} // verus!
