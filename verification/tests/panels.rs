use gpudash::gpu::GpuData;
use gpudash::layout::Area;
use gpudash::panels::{
    fan_gauge, footer_line, header_lines, header_title, percent_label,
    power_clock_panel, thermometer_panel, utilization_gauge, GaugeView,
};
use gpudash::thermometer::ThermometerScale;
use gpudash::tone::Tone;

fn gpu(util: u32, fan: u32, temp: u32) -> GpuData {
    GpuData::from_readings(
        Some("RTX".to_string()),
        95,
        100,
        Some(util),
        Some(temp),
        Some(fan),
        Some(215_500),
        Some(450_000),
        Some(2520),
    )
}

#[test]
fn utilization_gauge_colours_by_load() {
    assert_eq!(utilization_gauge(&gpu(95, 0, 0)), GaugeView { tone: Tone::Red, percent: 95 });
    assert_eq!(utilization_gauge(&gpu(75, 0, 0)), GaugeView { tone: Tone::Yellow, percent: 75 });
    assert_eq!(utilization_gauge(&gpu(10, 0, 0)), GaugeView { tone: Tone::Green, percent: 10 });
}

#[test]
fn gauge_percent_keeps_the_low_sixteen_bits() {
    assert_eq!(utilization_gauge(&gpu(65541, 0, 0)).percent, 5);
    assert_eq!(fan_gauge(&gpu(0, 65536, 0)).percent, 0);
}

#[test]
fn fan_gauge_colours_by_speed() {
    assert_eq!(fan_gauge(&gpu(0, 85, 0)), GaugeView { tone: Tone::Red, percent: 85 });
    assert_eq!(fan_gauge(&gpu(0, 60, 0)), GaugeView { tone: Tone::Yellow, percent: 60 });
    assert_eq!(fan_gauge(&gpu(0, 30, 0)), GaugeView { tone: Tone::Cyan, percent: 30 });
}

#[test]
fn percent_label_writes_the_value() {
    assert_eq!(percent_label(42), "42%");
    assert_eq!(percent_label(0), "0%");
}

#[test]
fn header_title_centres_the_name() {
    assert_eq!(header_title("RTX", 20), "═══════ RTX ════════");
    assert_eq!(header_title("RTX", 5), " RTX ");
    assert_eq!(header_title("ABCDEFGHIJ", 5), " ABCDEFGHIJ ");
    assert_eq!(header_title("", 4), "═  ═");
}

#[test]
fn header_title_counts_the_name_in_bytes() {
    // "é" takes two bytes, so the rules leave one column short
    assert_eq!(header_title("é", 10), "═══ é ═══");
}

#[test]
fn header_lines_are_a_blank_and_the_title() {
    let lines = header_lines(&gpu(0, 0, 0), 9);
    assert_eq!(lines.len(), 2);
    assert_eq!(lines[0].len(), 1);
    assert_eq!(lines[0][0].text, "");
    assert_eq!(lines[0][0].tone, None);
    assert_eq!(lines[1][0].text, "══ RTX ══");
    assert_eq!(lines[1][0].tone, Some(Tone::Cyan));
    assert!(lines[1][0].bold);
}

#[test]
fn footer_tells_how_to_quit() {
    let line = footer_line();
    assert_eq!(line.len(), 1);
    assert_eq!(line[0].text, " Press 'q' then Enter to quit ");
    assert_eq!(line[0].tone, Some(Tone::DarkGray));
}

#[test]
fn power_clock_panel_lines() {
    let g = gpu(0, 0, 0);
    let p = power_clock_panel(
        &g,
        Area { x: 0, y: 12, width: 60, height: 4 },
        47,
        "215.5W / 450.0W".to_string(),
    );
    assert_eq!(p.inner, Area { x: 1, y: 13, width: 58, height: 2 });
    assert_eq!(p.lines.len(), 2);
    assert_eq!(p.lines[0][0].text, " ⚡ Power: ");
    assert_eq!(p.lines[0][0].tone, Some(Tone::Yellow));
    assert_eq!(p.lines[0][1].text, "215.5W / 450.0W");
    assert_eq!(p.lines[0][1].tone, Some(Tone::Green));
    assert!(p.lines[0][1].bold);
    assert_eq!(p.lines[1][0].text, " ⏱  Clock: ");
    assert_eq!(p.lines[1][0].tone, Some(Tone::Cyan));
    assert_eq!(p.lines[1][1].text, "2520 MHz");
    assert_eq!(p.lines[1][1].tone, Some(Tone::White));
    assert!(p.lines[1][1].bold);
    let hot = power_clock_panel(&g, Area { x: 0, y: 0, width: 60, height: 4 }, 91, String::new());
    assert_eq!(hot.lines[0][1].tone, Some(Tone::Red));
    let warm = power_clock_panel(&g, Area { x: 0, y: 0, width: 60, height: 4 }, 71, String::new());
    assert_eq!(warm.lines[0][1].tone, Some(Tone::Yellow));
}

#[test]
fn thermometer_panel_uses_the_inside_of_its_border() {
    let scale = ThermometerScale {
        temp_f: 149,
        fill_level: 5,
        tick_rows: vec![2, 4, 6, 8, 10],
        row_temps: vec![200, 190, 181, 172, 163, 154, 145, 136, 127, 118, 109],
    };
    let p = thermometer_panel(&gpu(0, 0, 65), Area { x: 60, y: 2, width: 20, height: 18 }, &scale);
    assert_eq!(p.inner, Area { x: 61, y: 3, width: 18, height: 16 });
    assert_eq!(p.lines.len(), 16);
    assert_eq!(p.lines[15][1].text, "65°C / 149°F");
    let empty = ThermometerScale { temp_f: 149, fill_level: 0, tick_rows: vec![], row_temps: vec![] };
    let small = thermometer_panel(&gpu(0, 0, 65), Area { x: 0, y: 0, width: 20, height: 7 }, &empty);
    assert!(small.lines.is_empty());
}
