use gpudash::layout::{bordered_inner, dashboard_areas, display_area, Area};
use gpudash::text::{decimal_text, join, pad_left, repeat_text};

#[test]
fn decimal_text_writes_numerals() {
    assert_eq!(decimal_text(0), "0");
    assert_eq!(decimal_text(7), "7");
    assert_eq!(decimal_text(10), "10");
    assert_eq!(decimal_text(1234567), "1234567");
    assert_eq!(decimal_text(u64::MAX), u64::MAX.to_string());
}

#[test]
fn repeat_text_repeats() {
    assert_eq!(repeat_text("─", 3), "───");
    assert_eq!(repeat_text("ab", 2), "abab");
    assert_eq!(repeat_text("x", 0), "");
}

#[test]
fn pad_left_right_aligns() {
    assert_eq!(pad_left("7".to_string(), 3), "  7");
    assert_eq!(pad_left("180".to_string(), 3), "180");
    assert_eq!(pad_left("1234".to_string(), 3), "1234");
    assert_eq!(pad_left("é".to_string(), 3), "  é");
}

#[test]
fn join_concatenates() {
    assert_eq!(join("ab".to_string(), "cd"), "abcd");
}

fn area(x: u16, y: u16, width: u16, height: u16) -> Area {
    Area { x, y, width, height }
}

#[test]
fn bordered_inner_takes_one_cell_off_each_side() {
    assert_eq!(bordered_inner(area(0, 0, 10, 5)), area(1, 1, 8, 3));
    assert_eq!(bordered_inner(area(3, 7, 30, 12)), area(4, 8, 28, 10));
}

#[test]
fn bordered_inner_of_tiny_areas() {
    assert_eq!(bordered_inner(area(5, 5, 1, 1)), area(6, 6, 0, 0));
    assert_eq!(bordered_inner(area(5, 5, 0, 0)), area(5, 5, 0, 0));
    assert_eq!(bordered_inner(area(u16::MAX, u16::MAX, 0, 0)), area(u16::MAX, u16::MAX, 0, 0));
}

#[test]
fn display_area_takes_half_the_terminal_but_at_least_thirty_rows() {
    assert_eq!(display_area(area(0, 0, 100, 80)), area(0, 0, 100, 40));
    assert_eq!(display_area(area(0, 0, 100, 61)), area(0, 0, 100, 30));
    assert_eq!(display_area(area(0, 0, 100, 40)), area(0, 0, 100, 30));
    assert_eq!(display_area(area(0, 0, 100, 20)), area(0, 0, 100, 20));
    assert_eq!(display_area(area(2, 3, 50, 0)), area(2, 3, 50, 0));
}

#[test]
fn dashboard_areas_place_every_panel() {
    let d = dashboard_areas(area(0, 0, 100, 60));
    assert_eq!(d.header, area(0, 0, 100, 2));
    assert_eq!(d.footer, area(0, 29, 100, 1));
    assert_eq!(d.memory, area(0, 2, 75, 3));
    assert_eq!(d.utilization, area(0, 5, 75, 3));
    assert_eq!(d.fan, area(0, 8, 75, 3));
    assert_eq!(d.power, area(0, 11, 75, 4));
    assert_eq!(d.grid, area(0, 15, 75, 14));
    assert_eq!(d.thermometer, area(75, 2, 25, 27));
}

#[test]
fn dashboard_areas_on_a_tall_terminal_use_half_of_it() {
    let d = dashboard_areas(area(0, 0, 80, 100));
    assert_eq!(d.header, area(0, 0, 80, 2));
    assert_eq!(d.footer, area(0, 49, 80, 1));
    assert_eq!(d.thermometer.height, 47);
}

#[test]
fn dashboard_panels_stay_inside_and_apart() {
    for (w, h) in [(100u16, 60u16), (80, 24), (200, 90), (40, 31), (10, 5)] {
        let screen = area(0, 0, w, h);
        let display = display_area(screen);
        let d = dashboard_areas(screen);
        let inside = |a: Area| {
            a.x >= display.x
                && a.x as u32 + a.width as u32 <= display.x as u32 + display.width as u32
                && a.y >= display.y
                && a.y as u32 + a.height as u32 <= display.y as u32 + display.height as u32
        };
        let parts = [d.header, d.footer, d.memory, d.utilization, d.fan, d.power, d.grid, d.thermometer];
        for p in parts {
            assert!(inside(p), "{:?} outside {:?}", p, display);
        }
        let bottom = |a: Area| a.y + a.height;
        assert!(bottom(d.header) <= d.memory.y);
        assert!(bottom(d.memory) <= d.utilization.y);
        assert!(bottom(d.utilization) <= d.fan.y);
        assert!(bottom(d.fan) <= d.power.y);
        assert!(bottom(d.power) <= d.grid.y);
        assert!(bottom(d.grid) <= d.footer.y);
        assert!(bottom(d.thermometer) <= d.footer.y);
        assert!(d.grid.x + d.grid.width <= d.thermometer.x);
    }
}
