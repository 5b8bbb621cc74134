//! Screen areas: where the dashboard draws, where each panel goes, and the
//! inside of a bordered panel.
use vstd::prelude::*;
use ratatui::layout::{Constraint, Direction, Layout, Rect};

verus! {

/// A rectangle of terminal cells.
#[derive(Clone, Copy, Debug, PartialEq, Eq, Structural)]
pub struct Area {
    pub x: u16,
    pub y: u16,
    pub width: u16,
    pub height: u16,
}

/// Fewest rows the dashboard takes when the terminal has them.
pub const MIN_DISPLAY_HEIGHT: u16 = 30;

/// `a + b`, held at `u16::MAX`.
pub open spec fn add_held(a: int, b: int) -> int {
    if a + b > u16::MAX as int { u16::MAX as int } else { a + b }
}

/// `a - b`, held at zero.
pub open spec fn sub_held(a: int, b: int) -> int {
    if a - b < 0 { 0 } else { a - b }
}

/// The inside of a panel drawn with a border on all four sides and no padding:
/// one cell off each side, never past the area's own far edge.
pub open spec fn bordered_inner_of(a: Area) -> Area {
    let x = add_held(a.x as int, 1);
    let right = add_held(a.x as int, a.width as int);
    let y = add_held(a.y as int, 1);
    let bottom = add_held(a.y as int, a.height as int);
    Area {
        x: (if x < right { x } else { right }) as u16,
        y: (if y < bottom { y } else { bottom }) as u16,
        width: sub_held(sub_held(a.width as int, 1), 1) as u16,
        height: sub_held(sub_held(a.height as int, 1), 1) as u16,
    }
}

/// The area the dashboard uses: the top of the terminal, half its height but at
/// least 30 rows, and never more rows than the terminal has.
pub open spec fn display_area_of(screen: Area) -> Area {
    let half = screen.height / 2;
    let target = if half > MIN_DISPLAY_HEIGHT { half } else { MIN_DISPLAY_HEIGHT };
    Area {
        x: screen.x,
        y: screen.y,
        width: screen.width,
        height: if target < screen.height { target } else { screen.height },
    }
}

/// The inside of `area` once ratatui draws a `Block` with all borders in it
/// (`Block::inner`). Its source moves the left and top edges in by one cell, held
/// at the area's right and bottom edges, and takes one cell off the width and the
/// height for each border, held at zero; a bordered block without padding adds
/// nothing else, and a title on the top border takes no further row.
#[verifier::external_body]
pub fn bordered_inner(area: Area) -> (inner: Area)
    ensures
        inner == bordered_inner_of(area),
{
    let rect = Rect { x: area.x, y: area.y, width: area.width, height: area.height };
    let r = ratatui::widgets::Block::bordered().inner(rect);
    Area { x: r.x, y: r.y, width: r.width, height: r.height }
}

/// The area the dashboard draws in, given the whole terminal.
pub fn display_area(screen: Area) -> (a: Area)
    ensures
        a == display_area_of(screen),
{
    let half = screen.height / 2;
    let target = if half > MIN_DISPLAY_HEIGHT { half } else { MIN_DISPLAY_HEIGHT };
    let height = if target < screen.height { target } else { screen.height };
    Area { x: screen.x, y: screen.y, width: screen.width, height }
}

/// The column just past the right edge of `a`, held at `u16::MAX`.
pub open spec fn right_edge(a: Area) -> int {
    add_held(a.x as int, a.width as int)
}

/// The row just below the bottom edge of `a`, held at `u16::MAX`.
pub open spec fn bottom_edge(a: Area) -> int {
    add_held(a.y as int, a.height as int)
}

/// Whether `inner` lies within `outer`.
pub open spec fn within(inner: Area, outer: Area) -> bool {
    &&& outer.x <= inner.x
    &&& right_edge(inner) <= right_edge(outer)
    &&& outer.y <= inner.y
    &&& bottom_edge(inner) <= bottom_edge(outer)
}

/// Whether `parts` are rows of `area`: each as wide as the area and inside it,
/// each one ending at or above the row where the next begins.
pub open spec fn stacked_rows(parts: Seq<Area>, area: Area) -> bool {
    &&& forall|i: int|
        0 <= i < parts.len() ==> {
            &&& (#[trigger] parts[i]).x == area.x
            &&& parts[i].width == area.width
            &&& area.y <= parts[i].y
            &&& parts[i].y + parts[i].height <= bottom_edge(area)
        }
    &&& forall|i: int|
        0 <= i < parts.len() - 1 ==> (#[trigger] parts[i]).y + parts[i].height <= parts[i + 1].y
}

/// Whether `parts` are columns of `area`: each as tall as the area and inside it,
/// each one ending at or left of the column where the next begins.
pub open spec fn side_by_side(parts: Seq<Area>, area: Area) -> bool {
    &&& forall|i: int|
        0 <= i < parts.len() ==> {
            &&& (#[trigger] parts[i]).y == area.y
            &&& parts[i].height == area.height
            &&& area.x <= parts[i].x
            &&& parts[i].x + parts[i].width <= right_edge(area)
        }
    &&& forall|i: int|
        0 <= i < parts.len() - 1 ==> (#[trigger] parts[i]).x + parts[i].width <= parts[i + 1].x
}

/// Whether `parts` tile `area` down the rows without gaps: the first begins on
/// the area's top row, each next one where the one before ends, and the last ends
/// on its bottom row.
pub open spec fn rows_span(parts: Seq<Area>, area: Area) -> bool {
    parts.len() > 0 ==> {
        &&& parts[0].y == area.y
        &&& forall|i: int|
            0 <= i < parts.len() - 1 ==> (#[trigger] parts[i]).y + parts[i].height == parts[i
                + 1].y
        &&& parts[parts.len() - 1].y + parts[parts.len() - 1].height == bottom_edge(area)
    }
}

/// Whether `parts` tile `area` across the columns without gaps: the first begins
/// on the area's left column, each next one where the one before ends, and the
/// last ends on its right column.
pub open spec fn columns_span(parts: Seq<Area>, area: Area) -> bool {
    parts.len() > 0 ==> {
        &&& parts[0].x == area.x
        &&& forall|i: int|
            0 <= i < parts.len() - 1 ==> (#[trigger] parts[i]).x + parts[i].width == parts[i
                + 1].x
        &&& parts[parts.len() - 1].x + parts[parts.len() - 1].width == right_edge(area)
    }
}

/// How ratatui's layout solver splits `area` into rows of 2, at least 20, and 1
/// rows: header, content, footer.
pub uninterp spec fn main_rows_of(area: Area) -> Seq<Area>;

/// How ratatui's layout solver splits `area` into columns of 75 % and 25 %:
/// the gauges and grid on the left, the thermometer on the right.
pub uninterp spec fn content_columns_of(area: Area) -> Seq<Area>;

/// How ratatui's layout solver splits `area` into rows of 3, 3, 3, 4 and at least
/// 10 rows: memory, utilisation, fan, power/clock, SM grid.
pub uninterp spec fn left_rows_of(area: Area) -> Seq<Area>;

/// `Layout::split` of `area`, vertically, with `Length(2), Min(20), Length(1)`.
/// The solver (ratatui 0.26.3, `layout.rs`) returns one rectangle per constraint;
/// its required constraints (the area's two ends, every edge within them, edges in
/// order) can always be met, so its `expect("failed to split")` does not fire.
/// Those constraints, and the rounding of each edge to a whole cell that keeps
/// their order (`changes_to_rects`), place the rectangles inside the area, one
/// after another, each spanning the area across (the margin being zero). With the
/// default `Flex::Legacy`, which its documentation says fills the available
/// space, every spacer is held empty (the first and last by `is_empty`, the others
/// at the zero spacing) at strength `REQUIRED - 1`, above the sum of all the other
/// wishes, so the rectangles tile the area: the first starts at the area's start,
/// each next where the one before ends, the last ends at the area's end. Where the
/// edges in between fall is named, not stated: it comes from a floating-point
/// solver.
#[verifier::external_body]
fn main_rows(area: Area) -> (rows: Vec<Area>)
    ensures
        rows@ == main_rows_of(area),
        rows@.len() == 3,
        stacked_rows(rows@, area),
        rows_span(rows@, area),
{
    let rect = Rect { x: area.x, y: area.y, width: area.width, height: area.height };
    let parts = Layout::default()
        .direction(Direction::Vertical)
        .constraints([Constraint::Length(2), Constraint::Min(20), Constraint::Length(1)])
        .split(rect);
    parts.iter().map(|r| Area { x: r.x, y: r.y, width: r.width, height: r.height }).collect()
}

/// `Layout::split` of `area`, horizontally, with `Percentage(75), Percentage(25)`:
/// one rectangle per constraint, inside the area, left to right, each as tall as
/// the area, from the area's left edge to its right edge, as for `main_rows`.
#[verifier::external_body]
fn content_columns(area: Area) -> (columns: Vec<Area>)
    ensures
        columns@ == content_columns_of(area),
        columns@.len() == 2,
        side_by_side(columns@, area),
        columns_span(columns@, area),
{
    let rect = Rect { x: area.x, y: area.y, width: area.width, height: area.height };
    let parts = Layout::default()
        .direction(Direction::Horizontal)
        .constraints([Constraint::Percentage(75), Constraint::Percentage(25)])
        .split(rect);
    parts.iter().map(|r| Area { x: r.x, y: r.y, width: r.width, height: r.height }).collect()
}

/// `Layout::split` of `area`, vertically, with `Length(3)` three times,
/// `Length(4)` and `Min(10)`: one rectangle per constraint, inside the area, top
/// to bottom, each as wide as the area, from its top edge to its bottom edge, as
/// for `main_rows`.
#[verifier::external_body]
fn left_rows(area: Area) -> (rows: Vec<Area>)
    ensures
        rows@ == left_rows_of(area),
        rows@.len() == 5,
        stacked_rows(rows@, area),
        rows_span(rows@, area),
{
    let rect = Rect { x: area.x, y: area.y, width: area.width, height: area.height };
    let parts = Layout::default()
        .direction(Direction::Vertical)
        .constraints([
            Constraint::Length(3),
            Constraint::Length(3),
            Constraint::Length(3),
            Constraint::Length(4),
            Constraint::Min(10),
        ])
        .split(rect);
    parts.iter().map(|r| Area { x: r.x, y: r.y, width: r.width, height: r.height }).collect()
}

/// Where each part of the dashboard goes.
#[derive(Clone, Copy, Debug, PartialEq, Eq, Structural)]
pub struct DashboardAreas {
    pub header: Area,
    pub footer: Area,
    pub memory: Area,
    pub utilization: Area,
    pub fan: Area,
    pub power: Area,
    pub grid: Area,
    pub thermometer: Area,
}

/// The dashboard's parts on a terminal of the given size: the display area split
/// into header, content and footer rows; the content into a left and a right
/// column; the left column into the three gauges, the power/clock panel and the
/// grid; the right column is the thermometer.
pub open spec fn dashboard_areas_of(screen: Area) -> DashboardAreas {
    let main = main_rows_of(display_area_of(screen));
    let columns = content_columns_of(main[1]);
    let left = left_rows_of(columns[0]);
    DashboardAreas {
        header: main[0],
        footer: main[2],
        memory: left[0],
        utilization: left[1],
        fan: left[2],
        power: left[3],
        grid: left[4],
        thermometer: columns[1],
    }
}

/// Every part lies inside the display area and none overlaps another: the header
/// above everything else, the footer below; the memory, utilisation, fan,
/// power/clock and grid panels stacked in that order down the left, all of them
/// left of the thermometer.
pub open spec fn panels_placed(d: DashboardAreas, display: Area) -> bool {
    &&& within(d.header, display)
    &&& within(d.footer, display)
    &&& within(d.memory, display)
    &&& within(d.utilization, display)
    &&& within(d.fan, display)
    &&& within(d.power, display)
    &&& within(d.grid, display)
    &&& within(d.thermometer, display)
    &&& bottom_edge(d.header) <= d.memory.y
    &&& bottom_edge(d.header) <= d.thermometer.y
    &&& bottom_edge(d.memory) <= d.utilization.y
    &&& bottom_edge(d.utilization) <= d.fan.y
    &&& bottom_edge(d.fan) <= d.power.y
    &&& bottom_edge(d.power) <= d.grid.y
    &&& bottom_edge(d.grid) <= d.footer.y
    &&& bottom_edge(d.thermometer) <= d.footer.y
    &&& right_edge(d.memory) <= d.thermometer.x
    &&& right_edge(d.utilization) <= d.thermometer.x
    &&& right_edge(d.fan) <= d.thermometer.x
    &&& right_edge(d.power) <= d.thermometer.x
    &&& right_edge(d.grid) <= d.thermometer.x
}

/// The parts cover the display: the header, the footer and the row between them
/// are as wide as the display, the header starts on its first row and the footer
/// ends on its last; the left panels start on its left edge, the thermometer ends
/// on its right edge; the memory panel starts right under the header and the
/// grid ends right above the footer, as does the thermometer.
pub open spec fn panels_cover(d: DashboardAreas, display: Area) -> bool {
    &&& d.header.x == display.x
    &&& d.header.width == display.width
    &&& d.header.y == display.y
    &&& d.footer.x == display.x
    &&& d.footer.width == display.width
    &&& d.footer.y + d.footer.height == bottom_edge(display)
    &&& d.memory.x == display.x
    &&& d.utilization.x == display.x
    &&& d.fan.x == display.x
    &&& d.power.x == display.x
    &&& d.grid.x == display.x
    &&& d.memory.width == d.utilization.width
    &&& d.memory.width == d.fan.width
    &&& d.memory.width == d.power.width
    &&& d.memory.width == d.grid.width
    &&& d.thermometer.x + d.thermometer.width == right_edge(display)
    &&& d.memory.y == d.header.y + d.header.height
    &&& d.thermometer.y == d.header.y + d.header.height
    &&& d.grid.y + d.grid.height == d.footer.y
    &&& d.thermometer.y + d.thermometer.height == d.footer.y
}

/// Where each part of the dashboard goes on a terminal of the given size; the
/// parts lie inside the display area without overlapping.
pub fn dashboard_areas(screen: Area) -> (d: DashboardAreas)
    ensures
        d == dashboard_areas_of(screen),
        panels_placed(d, display_area_of(screen)),
        panels_cover(d, display_area_of(screen)),
{
    let display = display_area(screen);
    let main = main_rows(display);
    let columns = content_columns(main[1]);
    let left = left_rows(columns[0]);
    assert(main@[0] == main[0] && main@[1] == main[1] && main@[2] == main[2]);
    assert(columns@[0] == columns[0] && columns@[1] == columns[1]);
    assert(left@[0] == left[0] && left@[1] == left[1] && left@[2] == left[2]);
    assert(left@[3] == left[3] && left@[4] == left[4]);
    DashboardAreas {
        header: main[0],
        footer: main[2],
        memory: left[0],
        utilization: left[1],
        fan: left[2],
        power: left[3],
        grid: left[4],
        thermometer: columns[1],
    }
}

/// The dashboard never takes more rows than the terminal has, and takes at least
/// 30 where the terminal has them (all of them where it has fewer).
pub proof fn law_display_height(screen: Area)
    ensures
        display_area_of(screen).height <= screen.height,
        display_area_of(screen).height >= (if screen.height < MIN_DISPLAY_HEIGHT {
            screen.height
        } else {
            MIN_DISPLAY_HEIGHT
        }),
        display_area_of(screen).width == screen.width,
{
}

} // verus!
