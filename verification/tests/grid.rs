use gpudash::gpu::GpuData;
use gpudash::layout::Area;
use gpudash::sm_grid::{light_cells, light_cells_by_picks, nth_dark, sm_grid_lines, sm_grid_panel};
use gpudash::tone::Tone;
use gpudash::view::Segment;

fn texts(line: &[Segment]) -> Vec<&str> {
    line.iter().map(|s| s.text.as_str()).collect()
}

fn lit_positions(cells: &[bool]) -> Vec<usize> {
    cells.iter().enumerate().filter(|(_, c)| **c).map(|(i, _)| i).collect()
}

#[test]
fn nth_dark_counts_only_dark_cells() {
    let cells = vec![true, false, true, false, false];
    assert_eq!(nth_dark(&cells, 0), 1);
    assert_eq!(nth_dark(&cells, 1), 3);
    assert_eq!(nth_dark(&cells, 2), 4);
}

#[test]
fn picks_light_the_pick_th_dark_cell() {
    assert_eq!(lit_positions(&light_cells_by_picks(24, &vec![0, 0, 0])), vec![0, 1, 2]);
    assert_eq!(lit_positions(&light_cells_by_picks(24, &vec![23])), vec![23]);
    assert_eq!(lit_positions(&light_cells_by_picks(24, &vec![5, 5])), vec![5, 6]);
    assert_eq!(lit_positions(&light_cells_by_picks(4, &vec![3, 0, 1, 0])), vec![0, 1, 2, 3]);
    assert_eq!(light_cells_by_picks(3, &vec![]), vec![false, false, false]);
}

#[test]
fn light_cells_lights_exactly_as_many_as_asked() {
    for lit in 0..=24usize {
        for _ in 0..20 {
            let cells = light_cells(24, lit);
            assert_eq!(cells.len(), 24);
            assert_eq!(cells.iter().filter(|c| **c).count(), lit);
        }
    }
    assert!(light_cells(0, 0).is_empty());
}

#[test]
fn light_cells_reaches_every_cell() {
    let mut seen = [false; 24];
    for _ in 0..2000 {
        let cells = light_cells(24, 1);
        for (i, c) in cells.iter().enumerate() {
            if *c {
                seen[i] = true;
            }
        }
    }
    assert!(seen.iter().all(|s| *s));
}

#[test]
fn grid_lines_for_known_cells() {
    let mut cells = vec![false; 24];
    cells[0] = true;
    cells[9] = true;
    let lines = sm_grid_lines(&cells, 24, 8, 40, 10);
    assert_eq!(lines.len(), 10);
    let mut top = vec!["    "];
    top.extend(std::iter::repeat("┌──┐").take(8));
    assert_eq!(texts(&lines[0]), top);
    assert_eq!(lines[0][0].tone, None);
    assert_eq!(lines[0][1].tone, Some(Tone::Green));
    assert_eq!(lines[0][2].tone, Some(Tone::DarkGray));
    assert_eq!(lines[1][1].text, "│██│");
    assert_eq!(lines[1][1].tone, Some(Tone::Green));
    assert_eq!(lines[1][2].text, "│  │");
    assert_eq!(lines[1][2].tone, Some(Tone::DarkGray));
    assert_eq!(lines[2][1].text, "└──┘");
    assert_eq!(lines[4][2].text, "│██│");
    assert_eq!(lines[4][1].text, "│  │");
    assert_eq!(lines[5][2].tone, Some(Tone::Green));
    assert_eq!(texts(&lines[9]), vec!["    ", "24 SMs @ 8% utilization"]);
    assert_eq!(lines[9][1].tone, Some(Tone::Cyan));
}

#[test]
fn grid_cells_shrink_to_their_borders_in_narrow_areas() {
    let cells = vec![false; 24];
    let lines = sm_grid_lines(&cells, 24, 0, 16, 5);
    assert_eq!(lines.len(), 10);
    assert_eq!(lines[0][0].text, "    ");
    assert_eq!(lines[0][1].text, "┌┐");
    assert_eq!(lines[1][1].text, "││");
}

#[test]
fn grid_left_padding_centres_the_cells() {
    let cells = vec![false; 24];
    let lines = sm_grid_lines(&cells, 24, 0, 45, 5);
    // cells 5 wide: 40 columns of cells, 5 left over, 2 before
    assert_eq!(lines[0][0].text, "  ");
    assert_eq!(lines[0][1].text, "┌───┐");
}

#[test]
fn no_grid_in_a_small_area() {
    let cells = vec![false; 24];
    assert!(sm_grid_lines(&cells, 24, 50, 40, 4).is_empty());
    assert!(sm_grid_lines(&cells, 24, 50, 15, 10).is_empty());
}

#[test]
fn grid_with_fewer_sms_shows_fewer_cells() {
    let cells = vec![true; 10];
    let lines = sm_grid_lines(&cells, 10, 100, 40, 10);
    assert_eq!(lines[0].len(), 9);
    assert_eq!(lines[3].len(), 3);
    assert_eq!(lines[6].len(), 1);
    assert_eq!(texts(&lines[9]), vec!["    ", "10 SMs @ 100% utilization"]);
}

#[test]
fn grid_panel_lights_as_many_cells_as_asked() {
    let gpu = GpuData::from_readings(None, 0, 1, Some(50), None, None, None, None, None);
    for (asked, lit_expected) in [(12usize, 12usize), (0, 0), (30, 24)] {
        let panel = sm_grid_panel(&gpu, Area { x: 0, y: 0, width: 42, height: 12 }, asked);
        assert_eq!(panel.inner, Area { x: 1, y: 1, width: 40, height: 10 });
        assert_eq!(panel.lines.len(), 10);
        let lit: usize = [1usize, 4, 7]
            .iter()
            .map(|r| panel.lines[*r].iter().filter(|s| s.text.contains('█')).count())
            .sum();
        assert_eq!(lit, lit_expected);
        assert_eq!(panel.lines[9][1].text, "24 SMs @ 50% utilization");
    }
}

#[test]
fn grid_panel_in_a_small_area_is_empty() {
    let gpu = GpuData::from_readings(None, 0, 1, Some(50), None, None, None, None, None);
    let panel = sm_grid_panel(&gpu, Area { x: 0, y: 0, width: 42, height: 6 }, 12);
    assert_eq!(panel.inner.height, 4);
    assert!(panel.lines.is_empty());
}
#[test]
fn cell_rows_fit_the_panel_from_twenty_columns() {
    let cells = vec![true; 24];
    for w in 20..120u16 {
        let lines = sm_grid_lines(&cells, 24, 100, w, 10);
        for line in &lines[0..9] {
            let width: usize = line.iter().map(|s| s.text.chars().count()).sum();
            assert!(width <= w as usize, "width {} at {}", width, w);
        }
    }
}

#[test]
fn cell_rows_overflow_below_twenty_columns() {
    let cells = vec![true; 24];
    let lines = sm_grid_lines(&cells, 24, 100, 16, 10);
    let width: usize = lines[0].iter().map(|s| s.text.chars().count()).sum();
    assert_eq!(width, 20);
}
