use charts::types::{fallback_interval_ms, ChartMetadata};
use charts::rendering::helpers::{find_nearest_candle, visible_range};
use charts::rendering::instancing::{
    candle_layout_packed, candle_layout_unpacked, volume_layout, AttributeFormat, StepMode,
};
use charts::rendering::time_labels::{format_time_label_long, format_time_label_short};
use charts::screenshot::screenshot_filename;
use charts::theme::hex_rgb;
use std::collections::BTreeMap;

#[test]
fn nearest_candle_prefers_closer_then_earlier() {
    let mut candles = BTreeMap::new();
    candles.insert(1000i64, "a");
    candles.insert(2000i64, "b");
    candles.insert(4000i64, "c");
    assert_eq!(find_nearest_candle(&candles, 1400), Some((&1000, &"a")));
    assert_eq!(find_nearest_candle(&candles, 1600), Some((&2000, &"b")));
    assert_eq!(find_nearest_candle(&candles, 1500), Some((&1000, &"a")));
    assert_eq!(find_nearest_candle(&candles, 3000), Some((&2000, &"b")));
    assert_eq!(find_nearest_candle(&candles, 2000), Some((&2000, &"b")));
    assert_eq!(find_nearest_candle(&candles, -50), Some((&1000, &"a")));
    assert_eq!(find_nearest_candle(&candles, 9000), Some((&4000, &"c")));
}

#[test]
fn nearest_candle_of_empty_map_is_none() {
    let candles: BTreeMap<i64, u8> = BTreeMap::new();
    assert_eq!(find_nearest_candle(&candles, 0), None);
}

#[test]
fn nearest_candle_extreme_timestamps() {
    let mut candles = BTreeMap::new();
    candles.insert(i64::MIN, 1u8);
    candles.insert(i64::MAX, 2u8);
    assert_eq!(find_nearest_candle(&candles, -1), Some((&i64::MIN, &1)));
    assert_eq!(find_nearest_candle(&candles, 0), Some((&i64::MAX, &2)));
}

#[test]
fn test_vertex_buffer_layout_packed() {
    let layout = candle_layout_packed();
    assert_eq!(layout.array_stride, 32);
    assert!(matches!(layout.step_mode, StepMode::Instance));
    assert_eq!(layout.attributes.len(), 2);
    let attr0 = &layout.attributes[0];
    assert_eq!(attr0.shader_location, 0);
    assert_eq!(attr0.offset, 0);
    assert!(matches!(attr0.format, AttributeFormat::Float32x4));
    let attr1 = &layout.attributes[1];
    assert_eq!(attr1.shader_location, 1);
    assert_eq!(attr1.offset, 16);
    assert!(matches!(attr1.format, AttributeFormat::Float32x4));
}

#[test]
fn test_vertex_buffer_layout_unpacked() {
    let layout = candle_layout_unpacked();
    assert_eq!(layout.array_stride, 32);
    assert!(matches!(layout.step_mode, StepMode::Instance));
    assert_eq!(layout.attributes.len(), 7);
    for (i, attr) in layout.attributes.iter().enumerate() {
        assert_eq!(attr.shader_location, i as u32);
        assert_eq!(attr.offset, (i * 4) as u64);
        assert!(matches!(attr.format, AttributeFormat::Float32));
    }
}

#[test]
fn volume_layout_has_two_vec4_attributes() {
    let layout = volume_layout();
    assert_eq!(layout.array_stride, 32);
    assert_eq!(layout.attributes.len(), 2);
    assert_eq!(layout.attributes[1].offset, 16);
    assert_eq!(layout.attributes[1].shader_location, 1);
}

#[test]
fn hex_colors_with_and_without_hash() {
    assert_eq!(hex_rgb("#181616"), (0x18, 0x16, 0x16));
    assert_eq!(hex_rgb("51cda0"), (0x51, 0xcd, 0xa0));
    assert_eq!(hex_rgb("##C0504D"), (0xc0, 0x50, 0x4d));
}

#[test]
fn hex_pairs_that_are_not_numbers_give_zero() {
    assert_eq!(hex_rgb("#zz16+f"), (0, 0x16, 0x0f));
    assert_eq!(hex_rgb("#-1ff00"), (0, 0xff, 0));
}

#[test]
fn time_labels_in_utc() {
    assert_eq!(format_time_label_short(1638747660000), "12/05 23:41");
    assert_eq!(format_time_label_long(1638747660000), "2021-12-05 23:41");
    assert_eq!(format_time_label_short(0), "01/01 00:00");
    assert_eq!(format_time_label_long(-1500), "1969-12-31 23:59");
    assert_eq!(format_time_label_long(i64::MAX), "1970-01-01 00:00");
}

#[test]
fn screenshot_names_count_up() {
    let mut next = 7u32;
    assert_eq!(screenshot_filename(None, &mut next), "screenshot-0007.png");
    assert_eq!(next, 8);
    assert_eq!(screenshot_filename(Some("chart.png".to_string()), &mut next), "chart.png");
    assert_eq!(next, 8);
    let mut big = 12345u32;
    assert_eq!(screenshot_filename(None, &mut big), "screenshot-12345.png");
}

#[test]
fn fallback_intervals_of_timeframe_text() {
    assert_eq!(fallback_interval_ms("1m"), 60_000);
    assert_eq!(fallback_interval_ms("15m"), 900_000);
    assert_eq!(fallback_interval_ms("1h"), 3_600_000);
    assert_eq!(fallback_interval_ms("4h"), 14_400_000);
    assert_eq!(fallback_interval_ms("1d"), 86_400_000);
    assert_eq!(fallback_interval_ms("3w"), 3_600_000);
}

#[test]
fn color_codes_need_six_characters_after_hashes() {
    assert!(charts::theme::hex_fields_ok("#181616"));
    assert!(charts::theme::hex_fields_ok("51cda0"));
    assert!(charts::theme::hex_fields_ok("##51cda0ff"));
    assert!(!charts::theme::hex_fields_ok("#12345"));
    assert!(!charts::theme::hex_fields_ok("#1é3456"));
    assert_eq!(charts::theme::hex_rgb("#181616"), (0x18, 0x16, 0x16));
}

#[test]
fn chart_metadata_keeps_ticker_and_timeframe_text() {
    let m = ChartMetadata::new(42, "15m");
    assert_eq!(m.ticker_id, 42);
    assert_eq!(m.timeframe(), "15m");
    let d = ChartMetadata::default();
    assert_eq!(d.ticker_id, 0);
    assert_eq!(d.timeframe(), "1m");
}

#[test]
fn visible_range_clamps_to_the_data() {
    assert_eq!(visible_range(10, 50, 100), Some((10, 60)));
    assert_eq!(visible_range(80, 50, 100), Some((80, 100)));
    assert_eq!(visible_range(100, 50, 100), None);
    assert_eq!(visible_range(5, 0, 100), None);
    assert_eq!(visible_range(0, 10, 0), None);
}
