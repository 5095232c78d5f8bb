use rustcharts::color::Rgb;
use rustcharts::model::{ChartData, Mark, MarkPosition, Plots, Row};
use rustcharts::render::{handle_chart_request, RenderOutcome, RenderedChart};
use rustcharts::scene::Primitive;

fn row(time: i64, open: u64, log_open: i64, high: u64, log_high: i64, low: u64, log_low: i64,
       close: u64, log_close: i64, volume: Option<u64>) -> Row {
    Row { time, open, high, low, close, log_open, log_high, log_low, log_close, volume }
}

/// Three up candles a minute apart (prices in micro-units, logs in
/// micro-nats of the whole-unit price).
fn three_up_rows() -> Vec<Row> {
    let t0 = 1_000_000i64;
    vec![
        row(t0, 40_000_000_000, 10_596_635, 55_000_000_000, 10_915_088, 35_000_000_000,
            10_463_103, 50_000_000_000, 10_819_778, Some(100)),
        row(t0 + 60_000, 41_000_000_000, 10_621_327, 56_000_000_000, 10_933_107, 36_000_000_000,
            10_491_274, 51_000_000_000, 10_839_581, Some(200)),
        row(t0 + 120_000, 42_000_000_000, 10_645_425, 57_000_000_000, 10_950_807, 37_000_000_000,
            10_518_673, 52_000_000_000, 10_858_999, Some(150)),
    ]
}

fn base_data(rows: Vec<Row>, marks: Vec<Mark>) -> ChartData {
    let n = rows.len();
    ChartData {
        title: "BTC hourly".to_string(),
        ticker: "BTC".to_string(),
        timeframe: "1h".to_string(),
        cols: vec![
            "timestamp".to_string(),
            "open".to_string(),
            "high".to_string(),
            "low".to_string(),
            "close".to_string(),
            "volume".to_string(),
        ],
        data: rows,
        candle_colors: vec!["#00FF00".to_string(); n],
        volume_colors: vec!["#808080".to_string(); n],
        plots: Plots { marks },
        desc: "three green candles".to_string(),
        chat_id: Some("42".to_string()),
        subscriber_list: vec!["alice".to_string(), "bob".to_string()],
    }
}

fn rendered(data: &ChartData) -> RenderedChart {
    match handle_chart_request(data, "/tmp/charts") {
        RenderOutcome::Rendered(rc) => rc,
        RenderOutcome::NoData => panic!("expected a rendered chart"),
    }
}

fn count_triangles(prims: &[Primitive]) -> usize {
    prims.iter().filter(|p| matches!(p, Primitive::Triangle { .. })).count()
}

#[test]
fn empty_data_yields_no_data_and_nothing_else() {
    let data = base_data(Vec::new(), Vec::new());
    match handle_chart_request(&data, "/tmp/charts") {
        RenderOutcome::NoData => {}
        RenderOutcome::Rendered(_) => panic!("an empty payload must not render"),
    }
}

#[test]
fn three_candles_one_marker_scenario() {
    let marker = Mark {
        time: 1_060_000,
        position: MarkPosition::Above,
        color: "#FF0000".to_string(),
        text: None,
        size_milli: 1000,
    };
    let data = base_data(three_up_rows(), vec![marker]);
    let rc = rendered(&data);

    // three candle bodies
    assert_eq!(rc.bodies.len(), 3);

    // exactly one downward-pointing triangle (apex below its base corners)
    assert_eq!(count_triangles(&rc.markers), 1);
    match &rc.markers[0] {
        Primitive::Triangle { x0, y0, y1, y2, color, .. } => {
            assert!(y0 > y1, "an above-marker points down toward the candle");
            assert_eq!(y1, y2);
            assert_eq!(*color, Rgb { r: 255, g: 0, b: 0 });
            // anchored near candle index 1: at the center of slot 1
            let t = &rc.time;
            let center = (rustcharts::scale::slot_bound(t, 1)
                + rustcharts::scale::slot_bound(t, 2)) / 2;
            let expect_x =
                rustcharts::scale::x_of_offset(&rc.layout.plot, t, center);
            assert_eq!(*x0, expect_x);
        }
        other => panic!("expected a triangle, found {:?}", other),
    }

    // the summary's current-price row is green: the last candle closes up
    match &rc.summary[2] {
        Primitive::Text { color, content, .. } => {
            assert_eq!(*color, Rgb { r: 0, g: 150, b: 0 });
            assert_eq!(content, "$52,000");
        }
        other => panic!("expected the current-price value, found {:?}", other),
    }
}

#[test]
fn far_marker_is_dropped() {
    // average spacing is 40_000 ms; this marker is 100_000 ms before the
    // first candle, farther than half the spacing from every candle
    let marker = Mark {
        time: 900_000,
        position: MarkPosition::Above,
        color: "#FF0000".to_string(),
        text: None,
        size_milli: 1000,
    };
    let data = base_data(three_up_rows(), vec![marker]);
    let rc = rendered(&data);
    assert!(rc.markers.is_empty(), "a far marker leaves no trace in the output");
}

#[test]
fn below_marker_points_up_and_carries_its_label() {
    let marker = Mark {
        time: 1_000_000,
        position: MarkPosition::Below,
        color: "#0000FF".to_string(),
        text: Some("entry".to_string()),
        size_milli: 2000,
    };
    let data = base_data(three_up_rows(), vec![marker]);
    let rc = rendered(&data);
    assert_eq!(rc.markers.len(), 2);
    match &rc.markers[0] {
        Primitive::Triangle { y0, y1, .. } => {
            assert!(y0 < y1, "a below-marker points up toward the candle");
        }
        other => panic!("expected a triangle, found {:?}", other),
    }
    match &rc.markers[1] {
        Primitive::Text { font_size, color, content, .. } => {
            assert_eq!(content, "entry");
            assert_eq!(*font_size, 24);
            assert_eq!(*color, Rgb { r: 0, g: 0, b: 255 });
        }
        other => panic!("expected the marker label, found {:?}", other),
    }
}

#[test]
fn file_name_and_notification() {
    let data = base_data(three_up_rows(), Vec::new());
    let rc = rendered(&data);
    assert_eq!(rc.file_name, "/tmp/charts/BTC_1h.png");
    assert_eq!(rc.notification.topic, "telegram");
    assert_eq!(rc.notification.text, "three green candles");
    assert_eq!(rc.notification.image_path, rc.file_name);
    assert_eq!(rc.notification.chat_id, Some("42".to_string()));
    assert_eq!(
        rc.notification.subscriber_list,
        vec!["alice".to_string(), "bob".to_string()]
    );
}

#[test]
fn candles_are_resorted_by_timestamp() {
    let mut rows = three_up_rows();
    rows.swap(0, 2);
    let data = base_data(rows, Vec::new());
    let rc = rendered(&data);
    assert_eq!(rc.candles.len(), 3);
    assert!(rc.candles[0].time <= rc.candles[1].time);
    assert!(rc.candles[1].time <= rc.candles[2].time);
    assert_eq!(rc.candles[0].time, 1_000_000);
    assert_eq!(rc.candles[2].time, 1_120_000);
}

#[test]
fn short_color_lists_fall_back_to_layer_defaults() {
    let mut data = base_data(three_up_rows(), Vec::new());
    data.candle_colors = vec!["#123456".to_string()];
    data.volume_colors = Vec::new();
    let rc = rendered(&data);
    assert_eq!(rc.candles[0].body_color, Rgb { r: 0x12, g: 0x34, b: 0x56 });
    assert_eq!(rc.candles[1].body_color, Rgb { r: 0, g: 0, b: 0 });
    assert_eq!(rc.candles[2].body_color, Rgb { r: 0, g: 0, b: 0 });
    assert_eq!(rc.candles[0].volume_color, Rgb { r: 130, g: 130, b: 130 });
}

#[test]
fn missing_volume_defaults_to_zero_and_flattens_the_band() {
    let mut rows = three_up_rows();
    for r in rows.iter_mut() {
        r.volume = None;
    }
    let data = base_data(rows, Vec::new());
    let rc = rendered(&data);
    assert_eq!(rc.stats.max_volume, 0);
    for prim in &rc.volume {
        match prim {
            Primitive::Rect { y0, y1, .. } => assert_eq!(y0, y1),
            other => panic!("expected a volume bar, found {:?}", other),
        }
    }
}

#[test]
fn display_list_composes_all_layers_in_order() {
    let data = base_data(three_up_rows(), Vec::new());
    let rc = rendered(&data);
    let lens = [
        rc.grid.len(),
        rc.volume.len(),
        rc.wicks.len(),
        rc.bodies.len(),
        rc.overlay.len(),
        rc.markers.len(),
        rc.summary.len(),
        rc.title.len(),
    ];
    assert_eq!(rc.grid.len(), 17 + 6 + 6 + 9);
    assert_eq!(rc.volume.len(), 3);
    assert_eq!(rc.wicks.len(), 3);
    assert_eq!(rc.bodies.len(), 3);
    assert_eq!(rc.overlay.len(), 1);
    assert_eq!(rc.summary.len(), 7);
    assert_eq!(rc.title.len(), 1);
    let total: usize = lens.iter().sum();
    let all = rc.into_primitives();
    assert_eq!(all.len(), total);
    assert!(matches!(all[0], Primitive::Line { .. }));
    assert!(matches!(all[total - 1], Primitive::Text { .. }));
}
