//! The thermometer panel: a tube filled up to the temperature on a 100–200 °F
//! scale, with labelled ticks, a bulb, and the reading underneath.
//!
//! The figures that the scale computes in `f32` (the reading in °F, the fill
//! level, the rounded tick rows and the temperature of each tube row) come from
//! the caller as a [`ThermometerScale`]; everything else is decided here.
use vstd::prelude::*;
use std::collections::HashMap;
use crate::text::{decimal, decimal_text, join, pad_left, padded_left};
use crate::tone::{temp_tone, temp_tone_of, Tone};
use crate::view::{
    emphasise, emphasised, line_view, lines_view, paint, paint_str, painted, plain, text_width,
    unstyled, Segment, SegmentView,
};

verus! {

/// Rows besides the tube: the top, the three rows of the bulb, and the reading.
pub const ROWS_BELOW_TUBE: u16 = 5;

/// Smallest inner height at which the thermometer is drawn at all.
pub const MIN_THERMOMETER_HEIGHT: u16 = 6;

/// The °F and °C labels of the ticks, in the order they are placed.
pub open spec fn tick_label(k: int) -> (u32, u32) {
    if k == 0 {
        (180u32, 82u32)
    } else if k == 1 {
        (160u32, 71u32)
    } else if k == 2 {
        (140u32, 60u32)
    } else if k == 3 {
        (120u32, 49u32)
    } else {
        (100u32, 38u32)
    }
}

/// Number of ticks.
pub const TICK_COUNT: usize = 5;

/// The row a tick lands on: its rounded row, moved one row up for the 160 and 180
/// ticks where there is a row above.
pub open spec fn tick_row_of(k: int, rounded: u16) -> u16 {
    if k <= 1 && rounded > 0 { (rounded - 1) as u16 } else { rounded }
}

/// Rows of the first `n` ticks, each one replacing an earlier tick on the same row.
pub open spec fn tick_map_of(rounded: Seq<u16>, n: nat) -> Map<u16, (u32, u32)>
    decreases n,
{
    if n == 0 {
        Map::empty()
    } else {
        let k = n - 1;
        tick_map_of(rounded, (n - 1) as nat).insert(tick_row_of(k, rounded[k]), tick_label(k))
    }
}

/// The tick label (°F, °C) on tube row `row`, given the ticks' rounded rows.
pub open spec fn tube_label_of(row: int, rounded: Seq<u16>) -> Option<(u32, u32)> {
    let m = tick_map_of(rounded, TICK_COUNT as nat);
    if 0 <= row <= u16::MAX as int && m.contains_key(row as u16) {
        Some(m[row as u16])
    } else {
        None
    }
}

/// What the caller computes in floating point for one reading and tube height.
pub struct ThermometerScale {
    /// The reading in whole degrees Fahrenheit.
    pub temp_f: u32,
    /// Filled tube rows, counted from the bottom.
    pub fill_level: u16,
    /// Rounded rows of the 180, 160, 140, 120 and 100 ticks, before the 180 and
    /// 160 ticks move up a row.
    pub tick_rows: Vec<u16>,
    /// The temperature each tube row stands for, in °F, top row first.
    pub row_temps: Vec<u32>,
}

/// The scale as the thermometer reads it.
pub struct ScaleView {
    pub temp_f: u32,
    pub fill_level: u16,
    pub tick_rows: Seq<u16>,
    pub row_temps: Seq<u32>,
}

impl View for ThermometerScale {
    type V = ScaleView;

    open spec fn view(&self) -> ScaleView {
        ScaleView {
            temp_f: self.temp_f,
            fill_level: self.fill_level,
            tick_rows: self.tick_rows@,
            row_temps: self.row_temps@,
        }
    }
}

/// Tube rows for an inner area `inner_height` rows high: all but the five rows of
/// the top, the bulb and the reading; none below six rows.
pub open spec fn tube_height_of(inner_height: int) -> Option<u16> {
    if inner_height < MIN_THERMOMETER_HEIGHT as int {
        None
    } else {
        Some((inner_height - ROWS_BELOW_TUBE as int) as u16)
    }
}

/// Whether a scale fits a tube: five tick rows and one temperature per tube row.
pub open spec fn scale_fits(scale: ScaleView, tube_height: int) -> bool {
    scale.tick_rows.len() == TICK_COUNT && scale.row_temps.len() == tube_height
}

/// Whether tube row `row` (from the top) is filled.
pub open spec fn row_filled(row: int, tube_height: int, fill_level: int) -> bool {
    tube_height - 1 - row < fill_level
}

/// The row that closes the tube at the top of the scale.
pub open spec fn top_row_view() -> Seq<SegmentView> {
    seq![
        painted("200°F"@, Tone::Red),
        painted("─"@, Tone::Red),
        painted("╭───╮"@, Tone::White),
        painted("─"@, Tone::Red),
        painted("93°C"@, Tone::Red),
    ]
}

/// The fill of one tube row: coloured by the row's temperature where filled.
pub open spec fn fill_view(row: int, tube_height: int, scale: ScaleView) -> SegmentView {
    if row_filled(row, tube_height, scale.fill_level as int) {
        painted(" █ "@, temp_tone_of(scale.row_temps[row] as int))
    } else {
        painted("   "@, Tone::DarkGray)
    }
}

/// One tube row: the °F label and tick, the glass with its fill, the tick and the °C label.
pub open spec fn tube_row_view(row: int, tube_height: int, scale: ScaleView) -> Seq<SegmentView> {
    let fill = fill_view(row, tube_height, scale);
    match tube_label_of(row, scale.tick_rows) {
        Some((f, c)) => {
            let t = if f >= 180 { Tone::Yellow } else { Tone::DarkGray };
            seq![
                painted(padded_left(decimal(f as nat), 3) + "°F"@, t),
                painted("─"@, t),
                painted("│"@, Tone::White),
                fill,
                painted("│"@, Tone::White),
                painted("─"@, t),
                painted(decimal(c as nat) + "°C"@, t),
            ]
        },
        None => seq![
            painted("     "@, Tone::DarkGray),
            painted(" "@, Tone::DarkGray),
            painted("│"@, Tone::White),
            fill,
            painted("│"@, Tone::White),
            painted(" "@, Tone::DarkGray),
            painted("    "@, Tone::DarkGray),
        ],
    }
}

/// The row that joins the tube to the bulb.
pub open spec fn bulb_neck_view(tone: Tone) -> Seq<SegmentView> {
    seq![
        unstyled("     "@),
        painted("╭┘"@, Tone::White),
        painted(" █ "@, tone),
        painted("└╮"@, Tone::White),
    ]
}

/// The bulb, always full.
pub open spec fn bulb_body_view(tone: Tone) -> Seq<SegmentView> {
    seq![
        unstyled("     "@),
        painted("│"@, Tone::White),
        painted(" ███ "@, tone),
        painted("│"@, Tone::White),
    ]
}

/// The bottom of the bulb.
pub open spec fn bulb_base_view() -> Seq<SegmentView> {
    seq![unstyled("     "@), painted("╰─────╯"@, Tone::White)]
}

/// The reading in both units, bold in the temperature's colour.
pub open spec fn reading_view(temp_c: int, temp_f: int, tone: Tone) -> Seq<SegmentView> {
    seq![
        unstyled("  "@),
        emphasised(
            decimal(temp_c as nat) + "°C / "@ + decimal(temp_f as nat) + "°F"@,
            tone,
        ),
    ]
}

/// The whole thermometer for a reading of `temp_c` °C with its scale, in an area
/// `inner_height` rows high; nothing where fewer than six rows are available.
pub open spec fn thermometer_view(temp_c: int, scale: ScaleView, inner_height: int) -> Seq<
    Seq<SegmentView>,
> {
    match tube_height_of(inner_height) {
        None => Seq::empty(),
        Some(th) => {
            let tone = temp_tone_of(scale.temp_f as int);
            seq![top_row_view()] + Seq::new(
                th as nat,
                |i: int| tube_row_view(i, th as int, scale),
            ) + seq![
                bulb_neck_view(tone),
                bulb_body_view(tone),
                bulb_base_view(),
                reading_view(temp_c, scale.temp_f as int, tone),
            ]
        },
    }
}

/// Tube rows in an inner area of the given height, if the thermometer is drawn.
pub fn tube_height(inner_height: u16) -> (th: Option<u16>)
    ensures
        th == tube_height_of(inner_height as int),
{
    if inner_height < MIN_THERMOMETER_HEIGHT {
        None
    } else {
        Some(inner_height - ROWS_BELOW_TUBE)
    }
}

/// The tick labels by tube row: each tick placed on its row in turn (the 180 and
/// 160 ticks one row up), a later one replacing an earlier one on the same row.
pub fn tube_labels(tick_rows: &Vec<u16>) -> (labels: HashMap<u16, (u32, u32)>)
    requires
        tick_rows@.len() == TICK_COUNT,
    ensures
        labels@ == tick_map_of(tick_rows@, TICK_COUNT as nat),
{
    broadcast use vstd::std_specs::hash::group_hash_axioms;

    let mut labels: HashMap<u16, (u32, u32)> = HashMap::new();
    let mut k: usize = 0;
    while k < TICK_COUNT
        invariant
            k <= TICK_COUNT,
            tick_rows@.len() == TICK_COUNT,
            labels@ == tick_map_of(tick_rows@, k as nat),
        decreases TICK_COUNT - k,
    {
        let rounded = tick_rows[k];
        let row = if k <= 1 && rounded > 0 { rounded - 1 } else { rounded };
        let label: (u32, u32) = if k == 0 {
            (180, 82)
        } else if k == 1 {
            (160, 71)
        } else if k == 2 {
            (140, 60)
        } else if k == 3 {
            (120, 49)
        } else {
            (100, 38)
        };
        labels.insert(row, label);
        k = k + 1;
    }
    labels
}

/// One tube row, given the tick labels that `tube_labels` placed.
pub fn tube_row(
    row: u16,
    tube_height: u16,
    scale: &ThermometerScale,
    labels: &HashMap<u16, (u32, u32)>,
) -> (line: Vec<Segment>)
    requires
        row < tube_height,
        scale_fits(scale@, tube_height as int),
        labels@ == tick_map_of(scale.tick_rows@, TICK_COUNT as nat),
    ensures
        line_view(line@) == tube_row_view(row as int, tube_height as int, scale@),
{
    broadcast use vstd::std_specs::hash::group_hash_axioms;

    let from_bottom = tube_height - 1 - row;
    let fill = if from_bottom < scale.fill_level {
        paint_str(" █ ", temp_tone(scale.row_temps[row as usize]))
    } else {
        paint_str("   ", Tone::DarkGray)
    };
    assert(fill@ == fill_view(row as int, tube_height as int, scale@));
    let mut line: Vec<Segment> = Vec::new();
    match labels.get(&row) {
        Some(label) => {
            let (f, c) = *label;
            assert(tube_label_of(row as int, scale.tick_rows@) == Some((f, c)));
            let t = if f >= 180 { Tone::Yellow } else { Tone::DarkGray };
            line.push(paint(join(pad_left(decimal_text(f as u64), 3), "°F"), t));
            line.push(paint_str("─", t));
            line.push(paint_str("│", Tone::White));
            line.push(fill);
            line.push(paint_str("│", Tone::White));
            line.push(paint_str("─", t));
            line.push(paint(join(decimal_text(c as u64), "°C"), t));
        },
        None => {
            assert(tube_label_of(row as int, scale.tick_rows@) is None);
            line.push(paint_str("     ", Tone::DarkGray));
            line.push(paint_str(" ", Tone::DarkGray));
            line.push(paint_str("│", Tone::White));
            line.push(fill);
            line.push(paint_str("│", Tone::White));
            line.push(paint_str(" ", Tone::DarkGray));
            line.push(paint_str("    ", Tone::DarkGray));
        },
    }
    assert(line_view(line@) =~= tube_row_view(row as int, tube_height as int, scale@));
    line
}

/// The thermometer's lines for a reading of `temp_c` °C with its scale, in an area
/// `inner_height` rows high (the inside of the panel's border); none below six rows.
pub fn thermometer_lines(temp_c: u32, scale: &ThermometerScale, inner_height: u16) -> (lines: Vec<
    Vec<Segment>,
>)
    requires
        tube_height_of(inner_height as int) matches Some(th) ==> scale_fits(scale@, th as int),
    ensures
        lines_view(lines@) == thermometer_view(temp_c as int, scale@, inner_height as int),
{
    let mut lines: Vec<Vec<Segment>> = Vec::new();
    let th = match tube_height(inner_height) {
        None => {
            assert(lines_view(lines@) =~= Seq::<Seq<SegmentView>>::empty());
            return lines;
        },
        Some(th) => th,
    };
    let temp_f = scale.temp_f;
    let tone = temp_tone(temp_f);
    let labels = tube_labels(&scale.tick_rows);
    let ghost thi = th as int;
    let ghost sv = scale@;

    let mut top: Vec<Segment> = Vec::new();
    top.push(paint_str("200°F", Tone::Red));
    top.push(paint_str("─", Tone::Red));
    top.push(paint_str("╭───╮", Tone::White));
    top.push(paint_str("─", Tone::Red));
    top.push(paint_str("93°C", Tone::Red));
    assert(line_view(top@) =~= top_row_view());
    lines.push(top);
    assert(lines_view(lines@) =~= seq![top_row_view()]);

    let mut i: u16 = 0;
    while i < th
        invariant
            i <= th,
            thi == th as int,
            sv == scale@,
            scale_fits(sv, thi),
            labels@ == tick_map_of(scale.tick_rows@, TICK_COUNT as nat),
            lines_view(lines@) =~= seq![top_row_view()] + Seq::new(
                i as nat,
                |j: int| tube_row_view(j, thi, sv),
            ),
        decreases th - i,
    {
        let row = tube_row(i, th, scale, &labels);
        let ghost before = lines@;
        lines.push(row);
        assert(lines_view(lines@) =~= lines_view(before).push(line_view(row@)));
        assert(lines_view(lines@) =~= seq![top_row_view()] + Seq::new(
            (i + 1) as nat,
            |j: int| tube_row_view(j, thi, sv),
        ));
        i = i + 1;
    }
    let ghost tube = lines_view(lines@);

    let mut neck: Vec<Segment> = Vec::new();
    neck.push(plain(String::from_str("     ")));
    neck.push(paint_str("╭┘", Tone::White));
    neck.push(paint_str(" █ ", tone));
    neck.push(paint_str("└╮", Tone::White));
    assert(line_view(neck@) =~= bulb_neck_view(tone));

    let mut body: Vec<Segment> = Vec::new();
    body.push(plain(String::from_str("     ")));
    body.push(paint_str("│", Tone::White));
    body.push(paint_str(" ███ ", tone));
    body.push(paint_str("│", Tone::White));
    assert(line_view(body@) =~= bulb_body_view(tone));

    let mut base: Vec<Segment> = Vec::new();
    base.push(plain(String::from_str("     ")));
    base.push(paint_str("╰─────╯", Tone::White));
    assert(line_view(base@) =~= bulb_base_view());

    let reading_text = join(
        join(join(decimal_text(temp_c as u64), "°C / "), decimal_text(temp_f as u64).as_str()),
        "°F",
    );
    let mut reading: Vec<Segment> = Vec::new();
    reading.push(plain(String::from_str("  ")));
    reading.push(emphasise(reading_text, tone));
    assert(line_view(reading@) =~= reading_view(temp_c as int, temp_f as int, tone));

    lines.push(neck);
    lines.push(body);
    lines.push(base);
    lines.push(reading);
    assert(lines_view(lines@) =~= tube + seq![
        bulb_neck_view(tone),
        bulb_body_view(tone),
        bulb_base_view(),
        reading_view(temp_c as int, temp_f as int, tone),
    ]);
    lines
}

/// Every label in the tick map is one of the five tick labels.
proof fn lemma_tick_map_labels(rounded: Seq<u16>, n: nat, row: u16)
    requires
        tick_map_of(rounded, n).contains_key(row),
    ensures
        ({
            let l = tick_map_of(rounded, n)[row];
            ||| l == tick_label(0)
            ||| l == tick_label(1)
            ||| l == tick_label(2)
            ||| l == tick_label(3)
            ||| l == tick_label(4)
        }),
    decreases n,
{
    if n > 0 {
        let k = n - 1;
        if tick_row_of(k, rounded[k]) != row {
            lemma_tick_map_labels(rounded, (n - 1) as nat, row);
        }
    }
}

/// Columns taken by the top row and by every tube row, so that the glass, the
/// ticks and the labels line up from row to row.
pub const THERMOMETER_ROW_WIDTH: u16 = 16;

/// The top of the tube and every tube row are equally wide, whichever label a row
/// carries and whether it is filled.
pub proof fn law_tube_rows_aligned(row: int, tube_height: int, scale: ScaleView)
    requires
        0 <= row < tube_height,
        scale_fits(scale, tube_height),
    ensures
        text_width(top_row_view()) == THERMOMETER_ROW_WIDTH,
        text_width(tube_row_view(row, tube_height, scale)) == THERMOMETER_ROW_WIDTH,
{
    reveal_strlit("200°F");
    reveal_strlit("─");
    reveal_strlit("╭───╮");
    reveal_strlit("93°C");
    reveal_strlit("°F");
    reveal_strlit("°C");
    reveal_strlit("│");
    reveal_strlit(" █ ");
    reveal_strlit("   ");
    reveal_strlit("     ");
    reveal_strlit(" ");
    reveal_strlit("    ");
    reveal_with_fuel(text_width, 8);
    reveal_with_fuel(decimal, 3);
    let fill = fill_view(row, tube_height, scale);
    assert(fill.text.len() == 3);
    match tube_label_of(row, scale.tick_rows) {
        Some((f, c)) => {
            lemma_tick_map_labels(scale.tick_rows, TICK_COUNT as nat, row as u16);
            assert(decimal(f as nat).len() == 3);
            assert(decimal(c as nat).len() == 2);
        },
        None => {},
    }
}

/// The bulb's neck and body and the reading all carry one colour, the colour of
/// the reading in °F: red from 185 °F, yellow from 158, green from 120, cyan
/// below. The reading shows the temperature in both units, in bold.
pub proof fn law_bulb_and_reading_follow_temp_f(
    temp_c: int,
    scale: ScaleView,
    inner_height: int,
)
    requires
        MIN_THERMOMETER_HEIGHT as int <= inner_height <= u16::MAX as int,
    ensures
        ({
            let v = thermometer_view(temp_c, scale, inner_height);
            let f = scale.temp_f as int;
            let t = v[inner_height - 1][1].tone;
            &&& v[inner_height - 4][2].text == " █ "@
            &&& v[inner_height - 4][2].tone == t
            &&& v[inner_height - 3][2].text == " ███ "@
            &&& v[inner_height - 3][2].tone == t
            &&& (t == Some(Tone::Red)) == (f >= 185)
            &&& (t == Some(Tone::Yellow)) == (158 <= f < 185)
            &&& (t == Some(Tone::Green)) == (120 <= f < 158)
            &&& (t == Some(Tone::Cyan)) == (f < 120)
            &&& v[inner_height - 1][1].text == decimal(temp_c as nat) + "°C / "@ + decimal(
                scale.temp_f as nat,
            ) + "°F"@
            &&& v[inner_height - 1][1].bold
        }),
{
    let th = inner_height - ROWS_BELOW_TUBE as int;
    let v = thermometer_view(temp_c, scale, inner_height);
    assert(v[inner_height - 4] == bulb_neck_view(temp_tone_of(scale.temp_f as int)));
    assert(v[inner_height - 3] == bulb_body_view(temp_tone_of(scale.temp_f as int)));
    assert(v[inner_height - 1] == reading_view(
        temp_c,
        scale.temp_f as int,
        temp_tone_of(scale.temp_f as int),
    ));
}

/// Tube row `row` (from the top) shows the fill exactly when fewer than
/// `fill_level` rows lie below it, coloured by that row's own temperature; the
/// rows above the fill show an empty grey glass.
pub proof fn law_tube_fill(temp_c: int, scale: ScaleView, inner_height: int, row: int)
    requires
        MIN_THERMOMETER_HEIGHT as int <= inner_height <= u16::MAX as int,
        0 <= row < inner_height - ROWS_BELOW_TUBE as int,
    ensures
        ({
            let th = inner_height - ROWS_BELOW_TUBE as int;
            let fill = thermometer_view(temp_c, scale, inner_height)[row + 1][3];
            &&& (fill.text == " █ "@) == (th - 1 - row < scale.fill_level)
            &&& th - 1 - row < scale.fill_level ==> fill.tone == Some(
                temp_tone_of(scale.row_temps[row] as int),
            )
            &&& th - 1 - row >= scale.fill_level ==> fill.tone == Some(Tone::DarkGray)
        }),
{
    reveal_strlit(" █ ");
    reveal_strlit("   ");
    let th = inner_height - ROWS_BELOW_TUBE as int;
    let v = thermometer_view(temp_c, scale, inner_height);
    assert(v[row + 1] == tube_row_view(row, th, scale));
    assert(" █ "@ != "   "@) by {
        assert(" █ "@[1] != "   "@[1]);
    }
}

/// The thermometer fills the area it is given: one row per row of the area.
pub proof fn law_thermometer_fills_area(temp_c: int, scale: ScaleView, inner_height: int)
    requires
        MIN_THERMOMETER_HEIGHT as int <= inner_height <= u16::MAX as int,
    ensures
        thermometer_view(temp_c, scale, inner_height).len() == inner_height,
{
}

/// The filled rows form one column up from the bottom of the tube: below a filled
/// row every row is filled.
pub proof fn law_fill_from_bottom(upper: int, lower: int, tube_height: int, fill_level: int)
    requires
        upper <= lower,
        row_filled(upper, tube_height, fill_level),
    ensures
        row_filled(lower, tube_height, fill_level),
{
}

/// A tick lands on its rounded row, or one row higher for the 180 and 160 ticks;
/// of two ticks on one row the later one shows.
pub proof fn law_later_tick_wins(rounded: Seq<u16>, k: int)
    requires
        rounded.len() == TICK_COUNT,
        0 <= k < TICK_COUNT as int,
        forall|j: int| k < j < TICK_COUNT as int ==> tick_row_of(j, rounded[j]) != tick_row_of(
            k,
            rounded[k],
        ),
    ensures
        tube_label_of(tick_row_of(k, rounded[k]) as int, rounded) == Some(tick_label(k)),
{
    lemma_tick_map_keeps(rounded, (k + 1) as nat, TICK_COUNT as nat, tick_row_of(k, rounded[k]));
}

proof fn lemma_tick_map_keeps(rounded: Seq<u16>, from: nat, to: nat, row: u16)
    requires
        from <= to,
        forall|j: int| from <= j < to ==> tick_row_of(j, rounded[j]) != row,
    ensures
        tick_map_of(rounded, to).contains_key(row) == tick_map_of(rounded, from).contains_key(row),
        tick_map_of(rounded, from).contains_key(row) ==> tick_map_of(rounded, to)[row]
            == tick_map_of(rounded, from)[row],
    decreases to - from,
{
    if from < to {
        lemma_tick_map_keeps(rounded, from, (to - 1) as nat, row);
    }
}

} // verus!
