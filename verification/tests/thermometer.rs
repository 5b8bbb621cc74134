use gpudash::thermometer::{
    thermometer_lines, tube_height, tube_labels, tube_row, ThermometerScale,
};
use gpudash::tone::Tone;
use gpudash::view::Segment;

fn texts(line: &[Segment]) -> Vec<&str> {
    line.iter().map(|s| s.text.as_str()).collect()
}

fn tones(line: &[Segment]) -> Vec<Option<Tone>> {
    line.iter().map(|s| s.tone).collect()
}

/// The scale for 65 °C (149 °F) in an 11-row tube, as the f32 formulas give it.
fn scale_149_in_11() -> ThermometerScale {
    ThermometerScale {
        temp_f: 149,
        fill_level: 5,
        tick_rows: vec![2, 4, 6, 8, 10],
        row_temps: vec![200, 190, 181, 172, 163, 154, 145, 136, 127, 118, 109],
    }
}

#[test]
fn tube_height_leaves_five_rows() {
    assert_eq!(tube_height(16), Some(11));
    assert_eq!(tube_height(6), Some(1));
    assert_eq!(tube_height(5), None);
    assert_eq!(tube_height(0), None);
}

#[test]
fn tube_labels_move_the_top_ticks_up() {
    let labels = tube_labels(&vec![2, 4, 6, 8, 10]);
    assert_eq!(labels.len(), 5);
    assert_eq!(labels.get(&1), Some(&(180, 82)));
    assert_eq!(labels.get(&3), Some(&(160, 71)));
    assert_eq!(labels.get(&6), Some(&(140, 60)));
    assert_eq!(labels.get(&8), Some(&(120, 49)));
    assert_eq!(labels.get(&10), Some(&(100, 38)));
    assert_eq!(labels.get(&2), None);
}

#[test]
fn tube_labels_later_ticks_win_a_shared_row() {
    let labels = tube_labels(&vec![0, 0, 0, 0, 0]);
    assert_eq!(labels.len(), 1);
    assert_eq!(labels.get(&0), Some(&(100, 38)));
    let labels = tube_labels(&vec![0, 0, 1, 1, 1]);
    assert_eq!(labels.get(&0), Some(&(160, 71)));
    assert_eq!(labels.get(&1), Some(&(100, 38)));
}

#[test]
fn no_thermometer_in_a_short_area() {
    let empty = ThermometerScale { temp_f: 149, fill_level: 0, tick_rows: vec![], row_temps: vec![] };
    assert!(thermometer_lines(65, &empty, 5).is_empty());
    assert!(thermometer_lines(65, &empty, 0).is_empty());
}

#[test]
fn thermometer_for_65_celsius_in_16_rows() {
    let lines = thermometer_lines(65, &scale_149_in_11(), 16);
    assert_eq!(lines.len(), 16);
    assert_eq!(texts(&lines[0]), vec!["200°F", "─", "╭───╮", "─", "93°C"]);
    assert_eq!(
        tones(&lines[0]),
        vec![Some(Tone::Red), Some(Tone::Red), Some(Tone::White), Some(Tone::Red), Some(Tone::Red)]
    );
    // tube rows 0..11 are lines 1..12; the 180 tick sits on tube row 1
    assert_eq!(texts(&lines[2]), vec!["180°F", "─", "│", "   ", "│", "─", "82°C"]);
    assert_eq!(lines[2][0].tone, Some(Tone::Yellow));
    assert_eq!(texts(&lines[11]), vec!["100°F", "─", "│", " █ ", "│", "─", "38°C"]);
    assert_eq!(lines[11][0].tone, Some(Tone::DarkGray));
    assert_eq!(lines[11][3].tone, Some(Tone::Cyan));
    assert_eq!(texts(&lines[1]), vec!["     ", " ", "│", "   ", "│", " ", "    "]);
    // a fill of five rows: tube rows 6..=10
    assert_eq!(lines[6][3].text, "   ");
    assert_eq!(lines[6][3].tone, Some(Tone::DarkGray));
    assert_eq!(lines[7][3].text, " █ ");
    assert_eq!(lines[7][3].tone, Some(Tone::Green));
    assert_eq!(texts(&lines[12]), vec!["     ", "╭┘", " █ ", "└╮"]);
    assert_eq!(lines[12][0].tone, None);
    assert_eq!(lines[12][2].tone, Some(Tone::Green));
    assert_eq!(texts(&lines[13]), vec!["     ", "│", " ███ ", "│"]);
    assert_eq!(texts(&lines[14]), vec!["     ", "╰─────╯"]);
    assert_eq!(texts(&lines[15]), vec!["  ", "65°C / 149°F"]);
    assert!(lines[15][1].bold);
    assert_eq!(lines[15][1].tone, Some(Tone::Green));
    assert!(!lines[0][0].bold);
}

#[test]
fn thermometer_full_tube_colours_each_row_by_its_temperature() {
    let scale = ThermometerScale {
        temp_f: 203,
        fill_level: 5,
        tick_rows: vec![1, 2, 2, 3, 4],
        row_temps: vec![200, 180, 160, 140, 120],
    };
    let lines = thermometer_lines(95, &scale, 10);
    assert_eq!(lines.len(), 10);
    for row in 1..=5 {
        assert_eq!(lines[row][3].text, " █ ");
    }
    assert_eq!(lines[1][3].tone, Some(Tone::Red));
    assert_eq!(lines[2][3].tone, Some(Tone::Yellow));
    assert_eq!(lines[4][3].tone, Some(Tone::Green));
    assert_eq!(lines[5][3].tone, Some(Tone::Green));
    assert_eq!(texts(&lines[9]), vec!["  ", "95°C / 203°F"]);
    assert_eq!(lines[9][1].tone, Some(Tone::Red));
}

#[test]
fn thermometer_minimal_height_has_one_tube_row() {
    let scale = ThermometerScale {
        temp_f: 68,
        fill_level: 1,
        tick_rows: vec![0, 0, 0, 0, 0],
        row_temps: vec![200],
    };
    let lines = thermometer_lines(20, &scale, 6);
    assert_eq!(lines.len(), 6);
    assert_eq!(texts(&lines[1]), vec!["100°F", "─", "│", " █ ", "│", "─", "38°C"]);
    assert_eq!(lines[1][3].tone, Some(Tone::Red));
    assert_eq!(texts(&lines[5]), vec!["  ", "20°C / 68°F"]);
    assert_eq!(lines[5][1].tone, Some(Tone::Cyan));
}

#[test]
fn thermometer_fills_any_area_and_rows_line_up() {
    for h in 6..60u16 {
        let th = h - 5;
        let scale = ThermometerScale {
            temp_f: 150,
            fill_level: th / 2 + 1,
            tick_rows: vec![0, th / 3, th / 2, th - 1, th - 1],
            row_temps: (0..th as u32).map(|i| 200 - i).collect(),
        };
        let lines = thermometer_lines(40, &scale, h);
        assert_eq!(lines.len(), h as usize);
        for line in &lines[0..(h as usize - 4)] {
            let width: usize = line.iter().map(|s| s.text.chars().count()).sum();
            assert_eq!(width, 16);
        }
    }
}

#[test]
fn tube_row_matches_the_thermometer() {
    let scale = scale_149_in_11();
    let lines = thermometer_lines(65, &scale, 16);
    let labels = tube_labels(&scale.tick_rows);
    for r in 0..11u16 {
        let row = tube_row(r, 11, &scale, &labels);
        assert_eq!(texts(&row), texts(&lines[r as usize + 1]));
    }
}
