use rustcharts::model::{ChartData, Plots, Row};
use rustcharts::render::{handle_chart_request, RenderOutcome, RenderedChart};
use rustcharts::scale::{slot_bound, LOG_PAD_MICRO_NATS};

fn quick_row(time: i64, price: u64, log_price: i64, volume: Option<u64>) -> Row {
    Row {
        time,
        open: price,
        high: price + 1_000_000,
        low: if price > 1_000_000 { price - 1_000_000 } else { 1 },
        close: price,
        log_open: log_price,
        log_high: log_price + 20,
        log_low: log_price - 20,
        log_close: log_price,
        volume,
    }
}

fn quick_data(rows: Vec<Row>) -> ChartData {
    ChartData {
        title: "test".to_string(),
        ticker: "T".to_string(),
        timeframe: "1m".to_string(),
        cols: Vec::new(),
        data: rows,
        candle_colors: Vec::new(),
        volume_colors: Vec::new(),
        plots: Plots { marks: Vec::new() },
        desc: String::new(),
        chat_id: None,
        subscriber_list: Vec::new(),
    }
}

fn quick_render(rows: Vec<Row>) -> RenderedChart {
    match handle_chart_request(&quick_data(rows), "/out") {
        RenderOutcome::Rendered(rc) => rc,
        RenderOutcome::NoData => panic!("expected a rendered chart"),
    }
}

#[test]
fn log_values_stay_inside_the_padded_domain() {
    let rc = quick_render(vec![
        quick_row(0, 2_000_000, 693_147, Some(5)),
        quick_row(60_000, 8_000_000, 2_079_442, Some(9)),
        quick_row(120_000, 4_000_000, 1_386_294, Some(2)),
    ]);
    let lo = rc.price.min_log;
    let hi = rc.price.max_log_padded;
    assert_eq!(hi, rc.price.max_log + LOG_PAD_MICRO_NATS);
    for c in &rc.candles {
        for v in [c.log_open, c.log_high, c.log_low, c.log_close] {
            assert!(lo <= v && v <= hi);
        }
    }
}

#[test]
fn slot_widths_tile_the_time_domain_exactly() {
    let rc = quick_render(vec![
        quick_row(0, 2_000_000, 693_147, None),
        quick_row(70_000, 2_000_000, 693_147, None),
        quick_row(100_000, 2_000_000, 693_147, None),
        quick_row(190_000, 2_000_000, 693_147, None),
        quick_row(260_000, 2_000_000, 693_147, None),
        quick_row(300_000, 2_000_000, 693_147, None),
        quick_row(333_333, 2_000_000, 693_147, None),
    ]);
    let t = &rc.time;
    assert_eq!(slot_bound(t, 0), 0);
    assert_eq!(slot_bound(t, t.count), t.width);
    let mut sum: i64 = 0;
    let mut prev: i64 = 0;
    for i in 0..t.count {
        let left = slot_bound(t, i);
        let right = slot_bound(t, i + 1);
        // no overlap and no gap: consecutive slots share a boundary
        assert_eq!(left, prev);
        assert!(left <= right);
        sum += right - left;
        prev = right;
    }
    assert_eq!(sum, t.width, "slot widths sum to the time-domain width");
}

#[test]
fn time_scale_padding_formulas() {
    let rc = quick_render(vec![
        quick_row(1_000, 2_000_000, 693_147, None),
        quick_row(2_000, 2_000_000, 693_147, None),
        quick_row(4_000, 2_000_000, 693_147, None),
    ]);
    let t = &rc.time;
    assert_eq!(t.first_time, 1_000);
    assert_eq!(t.last_offset, 3_000);
    assert_eq!(t.avg_spacing, 1_000);
    assert_eq!(t.padded_end, 6_000);
    assert_eq!(t.width, 6_000);
}

#[test]
fn single_candle_degenerates_gracefully() {
    let rc = quick_render(vec![quick_row(5_000, 2_000_000, 693_147, Some(1))]);
    let t = &rc.time;
    assert_eq!(t.last_offset, 0);
    assert_eq!(t.avg_spacing, 0);
    assert_eq!(t.width, 1, "a single-instant domain is widened to a millisecond");
    assert_eq!(rc.bodies.len(), 1);
}

#[test]
fn equal_prices_still_render_with_positive_range() {
    let rc = quick_render(vec![
        Row {
            time: 0,
            open: 2_000_000,
            high: 2_000_000,
            low: 2_000_000,
            close: 2_000_000,
            log_open: 693_147,
            log_high: 693_147,
            log_low: 693_147,
            log_close: 693_147,
            volume: None,
        },
        Row {
            time: 60_000,
            open: 2_000_000,
            high: 2_000_000,
            low: 2_000_000,
            close: 2_000_000,
            log_open: 693_147,
            log_high: 693_147,
            log_low: 693_147,
            log_close: 693_147,
            volume: None,
        },
    ]);
    assert_eq!(rc.price.min_log, rc.price.max_log);
    assert!(rc.price.max_log_padded > rc.price.min_log);
    assert_eq!(rc.highest, 2_000_000);
    assert_eq!(rc.percent_bp, 0, "current price equals the high");
}

#[test]
fn zero_price_is_clamped_to_the_positive_floor() {
    let rc = quick_render(vec![
        Row {
            time: 0,
            open: 0,
            high: 5,
            low: 0,
            close: 3,
            log_open: -13_815_511,
            log_high: -12_206_073,
            log_low: -13_815_511,
            log_close: -12_716_898,
            volume: None,
        },
        quick_row(60_000, 2_000_000, 693_147, None),
    ]);
    assert_eq!(rc.candles[0].open, 1, "prices are clamped to one micro-unit");
    assert_eq!(rc.candles[0].low, 1);
    assert!(rc.stats.min_price >= 1);
}

#[test]
fn stats_are_the_exact_extrema() {
    let rc = quick_render(vec![
        quick_row(0, 2_000_000, 693_147, Some(5)),
        quick_row(60_000, 8_000_000, 2_079_442, Some(9)),
        quick_row(120_000, 4_000_000, 1_386_294, Some(2)),
    ]);
    assert_eq!(rc.stats.min_price, 1_000_000); // low of the first candle
    assert_eq!(rc.stats.max_price, 9_000_000); // high of the second candle
    assert_eq!(rc.stats.max_volume, 9);
    assert_eq!(rc.stats.min_log, 693_147 - 20);
    assert_eq!(rc.stats.max_log, 2_079_442 + 20);
    assert_eq!(rc.highest, 9_000_000);
}

#[test]
fn close_above_high_gives_negative_percent() {
    // degenerate data where the last close exceeds every high
    let rc = quick_render(vec![
        quick_row(0, 2_000_000, 693_147, None),
        Row {
            time: 60_000,
            open: 2_000_000,
            high: 2_500_000,
            low: 2_000_000,
            close: 5_000_000,
            log_open: 693_147,
            log_high: 916_291,
            log_low: 693_147,
            log_close: 1_609_438,
            volume: None,
        },
    ]);
    assert_eq!(rc.highest, 3_000_000); // high of the first quick row
    assert!(rc.percent_bp < 0);
    match &rc.summary[6] {
        rustcharts::scene::Primitive::Text { content, .. } => {
            assert!(content.starts_with('-'));
            assert!(content.ends_with('%'));
        }
        other => panic!("expected the percent value, found {:?}", other),
    }
}

#[test]
fn snapping_accepts_strictly_inside_half_spacing_only() {
    let rc = quick_render(vec![
        quick_row(0, 2_000_000, 693_147, None),
        quick_row(100, 2_000_000, 693_147, None),
    ]);
    // the average spacing is 100 / 2 = 50, so the tolerance is distance < 25
    let off = rc.time.last_offset;
    assert_eq!(off, 100);
    // exactly half the average spacing away from both candles: dropped
    assert_eq!(rustcharts::marker::snap_mark(&rc.candles, off, 25), None);
    // strictly nearer than half the spacing: anchored to the closest candle
    assert_eq!(rustcharts::marker::snap_mark(&rc.candles, off, 20), Some(0));
    assert_eq!(rustcharts::marker::snap_mark(&rc.candles, off, 80), Some(1));
    // equidistant but too far on both sides
    assert_eq!(rustcharts::marker::snap_mark(&rc.candles, off, 300), None);
}

#[test]
fn snapping_tolerance_is_not_floored_away_by_tight_spacing() {
    // candles one millisecond apart: the floored average spacing would be
    // zero for times 0..=2 over three candles, but the exact rule
    // (2 * distance * count < last_offset) keeps a marker sitting on a
    // candle's own timestamp
    let rc = quick_render(vec![
        quick_row(0, 2_000_000, 693_147, None),
        quick_row(1, 2_000_000, 693_147, None),
        quick_row(2, 2_000_000, 693_147, None),
    ]);
    assert_eq!(rc.time.avg_spacing, 0);
    assert_eq!(rustcharts::marker::snap_mark(&rc.candles, rc.time.last_offset, 1), Some(1));
}

#[test]
fn equal_time_candles_keep_input_order() {
    let rc = quick_render(vec![
        quick_row(5_000, 2_000_000, 693_147, Some(7)),
        quick_row(5_000, 4_000_000, 1_386_294, Some(8)),
        quick_row(4_000, 8_000_000, 2_079_442, Some(9)),
    ]);
    // the earlier candle sorts first; the two equal-time candles keep
    // their input order (the sort is stable)
    assert_eq!(rc.candles[0].time, 4_000);
    assert_eq!(rc.candles[1].close, 2_000_000);
    assert_eq!(rc.candles[2].close, 4_000_000);
}
