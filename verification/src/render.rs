//! The rendering pipeline: one request in, one composed display list out.
//!
//! `handle_chart_request` is a pure function of the payload and the output
//! directory: it normalizes the rows, builds the transforms, partitions the
//! canvas, and composes the five visual layers plus title and axis ticks.
//! An empty payload yields the no-data outcome — no layers, no file name, no
//! notification. Writing the raster file and sending the notification happen
//! outside the library.

use vstd::prelude::*;
use vstd::string::StrSliceExecFns;
use vstd::string::StringExecFns;
use crate::model::{Candle, ChartData, RenderStats, chart_data_valid, candle_valid};
use crate::layout::{Layout, layout_wf, make_layout, CANVAS_W, CANVAS_H};
use crate::normalize::{normalize, normal_candles, sorted_by_time, sort_by_time_spec,
    stats_exact, lemma_normal_candles_valid, candle_within_stats};
use crate::scale::{TimeScale, PriceScale, time_scale, price_scale, time_scale_wf, price_scale_wf,
    CANDLE_COUNT_MAX};
use crate::scene::Primitive;
use crate::series::{grid_seq, ticks_seq, volume_seq, wick_seq, body_seq, spec_price_line,
    spec_direction_color, push_grid, push_axis_ticks, push_volume_bars, push_wicks, push_bodies,
    push_price_line};
use crate::marker::{markers_seq, push_markers};
use crate::summary::{summary_layer_ok, spec_percent_from_high_bp, is_max_high, is_text_prim,
    highest_visible, percent_from_high_bp, push_summary};

verus! {

/// The outbound notification describing a finished render: fire-and-forget,
/// consumed by an external notifier.
#[derive(Clone, Debug)]
pub struct Notification {
    pub topic: String,
    pub text: String,
    pub image_path: String,
    pub chat_id: Option<String>,
    pub subscriber_list: Vec<String>,
}

/// A composed chart: the canvas partition, the transforms, the normalized
/// candles with their statistics, and the display-list layers in
/// back-to-front order.
#[derive(Debug)]
pub struct RenderedChart {
    pub layout: Layout,
    pub time: TimeScale,
    pub price: PriceScale,
    pub stats: RenderStats,
    pub candles: Vec<Candle>,
    /// Highest visible price: the maximum high over the candles.
    pub highest: u64,
    /// Percent-from-high of the last close, in basis points.
    pub percent_bp: i128,
    /// Grid lines and axis ticks.
    pub grid: Vec<Primitive>,
    /// Volume bars.
    pub volume: Vec<Primitive>,
    /// Candle wicks.
    pub wicks: Vec<Primitive>,
    /// Candle bodies.
    pub bodies: Vec<Primitive>,
    /// The current-price reference line.
    pub overlay: Vec<Primitive>,
    /// Marker triangles and labels.
    pub markers: Vec<Primitive>,
    /// The summary table.
    pub summary: Vec<Primitive>,
    /// The title text.
    pub title: Vec<Primitive>,
    pub file_name: String,
    pub notification: Notification,
}

/// The outcome of one request: a composed chart, or the no-data signal for
/// an empty payload.
pub enum RenderOutcome {
    NoData,
    Rendered(RenderedChart),
}

/// The output file name: `{dir}/{ticker}_{timeframe}.png`.
pub open spec fn spec_file_name(dir: Seq<char>, ticker: Seq<char>, tf: Seq<char>) -> Seq<char> {
    dir + "/"@ + ticker + "_"@ + tf + ".png"@
}

/// The single title text primitive.
pub open spec fn title_layer_ok(prims: Seq<Primitive>, l: Layout, title: Seq<char>) -> bool {
    &&& prims.len() == 1
    &&& is_text_prim(
        prims[0],
        l.title.x + 10,
        l.title.y + l.title.h / 2,
        20,
        crate::color::spec_black(),
        title,
    )
}

/// Everything `handle_chart_request` guarantees of a composed chart.
pub open spec fn rendered_chart_ok(rc: RenderedChart, d: ChartData, dir: Seq<char>) -> bool {
    let cs = rc.candles@;
    let plot = rc.layout.plot;
    &&& layout_wf(rc.layout)
    &&& rc.layout.canvas_w == CANVAS_W
    &&& rc.layout.canvas_h == CANVAS_H
    &&& cs.len() == d.data@.len()
    &&& cs.len() > 0
    &&& cs == sort_by_time_spec(normal_candles(d))
    &&& sorted_by_time(cs)
    &&& cs.to_multiset() == normal_candles(d).to_multiset()
    &&& forall|i: int| 0 <= i < cs.len() ==> normal_candles(d).contains(#[trigger] cs[i])
    &&& stats_exact(cs, rc.stats)
    &&& time_scale_wf(rc.time)
    &&& rc.time.count == cs.len()
    &&& rc.time.first_time == cs[0].time
    &&& rc.time.last_offset == cs[cs.len() - 1].time - cs[0].time
    &&& price_scale_wf(rc.price)
    &&& rc.price.min_log == rc.stats.min_log
    &&& rc.price.max_log == rc.stats.max_log
    &&& is_max_high(cs, rc.highest)
    &&& rc.percent_bp == spec_percent_from_high_bp(cs[cs.len() - 1].close, rc.highest)
    &&& rc.grid@ == grid_seq(plot, rc.time, rc.price) + ticks_seq(plot, rc.time, rc.price)
    &&& rc.volume@ == volume_seq(plot, rc.time, rc.price, rc.stats.max_volume, cs)
    &&& rc.wicks@ == wick_seq(plot, rc.time, rc.price, cs)
    &&& rc.bodies@ == body_seq(plot, rc.time, rc.price, cs)
    &&& rc.overlay@ == seq![spec_price_line(plot, rc.price, cs[cs.len() - 1])]
    &&& rc.markers@ == markers_seq(plot, rc.time, rc.price, cs, d.plots.marks@)
    &&& summary_layer_ok(
        rc.summary@,
        rc.layout.summary,
        spec_direction_color(cs[cs.len() - 1]),
        cs[cs.len() - 1].close,
        rc.highest,
        rc.percent_bp as int,
    )
    &&& title_layer_ok(rc.title@, rc.layout, d.title@)
    &&& rc.file_name@ == spec_file_name(dir, d.ticker@, d.timeframe@)
    &&& rc.notification.topic@ == "telegram"@
    &&& rc.notification.text@ == d.desc@
    &&& rc.notification.image_path@ == rc.file_name@
    &&& rc.notification.chat_id == d.chat_id
    &&& rc.notification.subscriber_list@ == d.subscriber_list@
}

fn build_file_name(dir: &str, ticker: &str, tf: &str) -> (s: String)
    ensures
        s@ == spec_file_name(dir@, ticker@, tf@),
{
    let mut s = dir.to_owned();
    s.append("/");
    s.append(ticker);
    s.append("_");
    s.append(tf);
    s.append(".png");
    proof {
        assert(s@ =~= spec_file_name(dir@, ticker@, tf@));
    }
    s
}

fn clone_opt_string(o: &Option<String>) -> (r: Option<String>)
    ensures
        r == *o,
{
    match o {
        Some(s) => Some(s.clone()),
        None => None,
    }
}

fn clone_strings(v: &Vec<String>) -> (r: Vec<String>)
    ensures
        r@ == v@,
{
    let mut r: Vec<String> = Vec::new();
    let mut i: usize = 0;
    while i < v.len()
        invariant
            i <= v@.len(),
            r@ =~= v@.take(i as int),
        decreases v@.len() - i,
    {
        r.push(v[i].clone());
        proof {
            assert(v@.take(i + 1) =~= v@.take(i as int).push(v@[i as int]));
        }
        i = i + 1;
    }
    proof {
        assert(v@.take(v@.len() as int) =~= v@);
    }
    r
}

/// Runs the whole pipeline on one payload. An empty payload yields `NoData`
/// (no file name, no notification); otherwise every layer of the composed
/// chart, the output file name and the notification are pinned down by
/// `rendered_chart_ok`.
pub fn handle_chart_request(data: &ChartData, output_dir: &str) -> (r: RenderOutcome)
    requires
        chart_data_valid(*data),
        data.data@.len() <= CANDLE_COUNT_MAX,
    ensures
        (data.data@.len() == 0) == (r is NoData),
        match r {
            RenderOutcome::NoData => data.data@.len() == 0,
            RenderOutcome::Rendered(rc) => rendered_chart_ok(rc, *data, output_dir@),
        },
{
    let normalized = normalize(data);
    let (candles, stats) = match normalized {
        None => {
            return RenderOutcome::NoData;
        },
        Some(pair) => pair,
    };
    proof {
        lemma_normal_candles_valid(*data);
        assert forall|i: int| 0 <= i < candles@.len() implies candle_valid(
            #[trigger] candles@[i],
        ) by {
            let j = choose|j: int|
                0 <= j < normal_candles(*data).len() && normal_candles(*data)[j] == candles@[i];
            assert(crate::model::row_valid(data.data@[j]));
            assert(candle_valid(normal_candles(*data)[j]));
        };
        assert(candle_within_stats(candles@[0], stats));
    }
    let layout = make_layout(CANVAS_W, CANVAS_H);
    let t = time_scale(&candles);
    let p = price_scale(&stats);
    let plot = layout.plot;

    let mut grid: Vec<Primitive> = Vec::new();
    push_grid(&mut grid, &plot, &t, &p);
    push_axis_ticks(&mut grid, &plot, &t, &p);

    let mut volume: Vec<Primitive> = Vec::new();
    push_volume_bars(&mut volume, &plot, &t, &p, &stats, &candles);

    let mut wicks: Vec<Primitive> = Vec::new();
    push_wicks(&mut wicks, &plot, &t, &p, &stats, &candles);

    let mut bodies: Vec<Primitive> = Vec::new();
    push_bodies(&mut bodies, &plot, &t, &p, &stats, &candles);

    let mut overlay: Vec<Primitive> = Vec::new();
    push_price_line(&mut overlay, &plot, &p, &stats, &candles);

    let mut markers: Vec<Primitive> = Vec::new();
    push_markers(&mut markers, &plot, &t, &p, &stats, &candles, &data.plots.marks);

    let last_idx = candles.len() - 1;
    let current = candles[last_idx].close;
    let high = highest_visible(&candles);
    let bp = percent_from_high_bp(current, high);
    let dir_color = if candles[last_idx].close >= candles[last_idx].open {
        crate::color::up_green()
    } else {
        crate::color::down_red()
    };
    let mut summary: Vec<Primitive> = Vec::new();
    push_summary(&mut summary, &layout.summary, dir_color, current, high, bp);

    let mut title: Vec<Primitive> = Vec::new();
    let half_h = ((layout.title.h as u64) / 2) as i64;
    title.push(Primitive::Text {
        x: layout.title.x + 10,
        y: layout.title.y + half_h,
        font_size: 20,
        color: crate::color::black(),
        content: data.title.clone(),
    });

    proof {
        assert(grid@ =~= grid_seq(plot, t, p) + ticks_seq(plot, t, p));
        assert(volume@ =~= volume_seq(plot, t, p, stats.max_volume, candles@));
        assert(wicks@ =~= wick_seq(plot, t, p, candles@));
        assert(bodies@ =~= body_seq(plot, t, p, candles@));
        assert(overlay@ =~= seq![spec_price_line(plot, p, candles@[candles@.len() - 1])]);
        assert(markers@ =~= markers_seq(plot, t, p, candles@, data.plots.marks@));
        assert(summary@.skip(0) =~= summary@);
    }
    let file_name = build_file_name(output_dir, data.ticker.as_str(), data.timeframe.as_str());
    let notification = Notification {
        topic: {
            let s = "telegram".to_owned();
            s
        },
        text: data.desc.clone(),
        image_path: file_name.clone(),
        chat_id: clone_opt_string(&data.chat_id),
        subscriber_list: clone_strings(&data.subscriber_list),
    };

    RenderOutcome::Rendered(
        RenderedChart {
            layout,
            time: t,
            price: p,
            stats,
            candles,
            highest: high,
            percent_bp: bp,
            grid,
            volume,
            wicks,
            bodies,
            overlay,
            markers,
            summary,
            title,
            file_name,
            notification,
        },
    )
}

/// The summary's percent-from-high is non-negative for every composed chart
/// whose last candle closes at or below its own high: the highest visible
/// price then bounds the current price by construction, and the two being
/// equal gives exactly zero.
pub proof fn lemma_rendered_percent_nonneg(rc: RenderedChart, d: ChartData, dir: Seq<char>)
    requires
        rendered_chart_ok(rc, d, dir),
        rc.candles@[rc.candles@.len() - 1].close <= rc.candles@[rc.candles@.len() - 1].high,
    ensures
        rc.percent_bp >= 0,
        rc.candles@[rc.candles@.len() - 1].close == rc.highest ==> rc.percent_bp == 0,
{
    let last = rc.candles@[rc.candles@.len() - 1];
    assert(last.high <= rc.highest);
    crate::summary::lemma_percent_from_high(last.close, rc.highest);
}

impl RenderedChart {
    /// The whole display list, layers concatenated in back-to-front order:
    /// grid and ticks, volume, wicks, bodies, the current-price line,
    /// markers, the summary table, the title.
    pub fn into_primitives(self) -> (out: Vec<Primitive>)
        ensures
            out@ == self.grid@ + self.volume@ + self.wicks@ + self.bodies@ + self.overlay@
                + self.markers@ + self.summary@ + self.title@,
    {
        let mut out = self.grid;
        let mut volume = self.volume;
        let mut wicks = self.wicks;
        let mut bodies = self.bodies;
        let mut overlay = self.overlay;
        let mut markers = self.markers;
        let mut summary = self.summary;
        let mut title = self.title;
        out.append(&mut volume);
        out.append(&mut wicks);
        out.append(&mut bodies);
        out.append(&mut overlay);
        out.append(&mut markers);
        out.append(&mut summary);
        out.append(&mut title);
        out
    }
}

} // verus!
