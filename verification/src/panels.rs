//! The dashboard's panels as data: gauges, the power/clock panel, the header
//! line with the GPU's name, the footer, and the thermometer in its frame.
use vstd::prelude::*;
use vstd::utf8::encode_utf8;
use crate::gpu::GpuData;
use crate::layout::{bordered_inner, bordered_inner_of, sub_held, Area};
use crate::text::{decimal, decimal_text, join, repeat_text, repeated};
use crate::thermometer::{
    scale_fits, thermometer_lines, thermometer_view, tube_height_of, ThermometerScale,
};
use crate::tone::{fan_tone, fan_tone_of, load_tone, load_tone_of, Tone};
use crate::view::{
    emphasise, emphasised, line_view, lines_view, paint_str, painted, plain, unstyled, Panel,
    Segment, SegmentView,
};

verus! {

/// A bar gauge: its colour and how full it is, in percent.
#[derive(Clone, Copy, Debug, PartialEq, Eq, Structural)]
pub struct GaugeView {
    pub tone: Tone,
    pub percent: u16,
}

/// The utilisation gauge: the utilisation's low 16 bits, coloured by load.
pub fn utilization_gauge(gpu: &GpuData) -> (g: GaugeView)
    ensures
        g.tone == load_tone_of(gpu.utilization as int),
        g.percent as int == gpu.utilization as int % 65536,
{
    GaugeView { tone: load_tone(gpu.utilization), percent: (gpu.utilization % 65536) as u16 }
}

/// The fan gauge: the fan speed's low 16 bits, coloured by speed.
pub fn fan_gauge(gpu: &GpuData) -> (g: GaugeView)
    ensures
        g.tone == fan_tone_of(gpu.fan_speed as int),
        g.percent as int == gpu.fan_speed as int % 65536,
{
    GaugeView { tone: fan_tone(gpu.fan_speed), percent: (gpu.fan_speed % 65536) as u16 }
}

/// A whole percentage written out, as in "42%".
pub fn percent_label(value: u32) -> (s: String)
    ensures
        s@ == decimal(value as nat) + "%"@,
{
    join(decimal_text(value as u64), "%")
}

/// The power and clock lines: the power figures (written by the caller) coloured
/// by the draw's percentage of the limit, and the clock in MHz.
pub open spec fn power_clock_view(gpu: GpuData, power_percent: int, power_text: Seq<char>) -> Seq<
    Seq<SegmentView>,
> {
    seq![
        seq![
            painted(" ⚡ Power: "@, Tone::Yellow),
            emphasised(power_text, load_tone_of(power_percent)),
        ],
        seq![
            painted(" ⏱  Clock: "@, Tone::Cyan),
            emphasised(decimal(gpu.clock_speed as nat) + " MHz"@, Tone::White),
        ],
    ]
}

/// The power/clock panel in `area` (border included). `power_percent` is the
/// draw's whole percentage of the limit and `power_text` the draw and limit as
/// written for display; the caller works both out in floating point.
pub fn power_clock_panel(gpu: &GpuData, area: Area, power_percent: u32, power_text: String) -> (p:
    Panel)
    ensures
        p.inner == bordered_inner_of(area),
        lines_view(p.lines@) == power_clock_view(*gpu, power_percent as int, power_text@),
{
    let inner = bordered_inner(area);
    let ghost pt = power_text@;
    let mut power: Vec<Segment> = Vec::new();
    power.push(paint_str(" ⚡ Power: ", Tone::Yellow));
    power.push(emphasise(power_text, load_tone(power_percent)));
    let mut clock: Vec<Segment> = Vec::new();
    clock.push(paint_str(" ⏱  Clock: ", Tone::Cyan));
    clock.push(emphasise(join(decimal_text(gpu.clock_speed as u64), " MHz"), Tone::White));
    let ghost views = power_clock_view(*gpu, power_percent as int, pt);
    assert(line_view(power@) =~= views[0]);
    assert(line_view(clock@) =~= views[1]);
    let mut lines: Vec<Vec<Segment>> = Vec::new();
    lines.push(power);
    lines.push(clock);
    assert(lines_view(lines@) =~= views);
    Panel { inner, lines }
}

/// The thermometer panel for a reading, in `area` (border included), with the
/// scale the caller worked out for the panel's tube.
pub fn thermometer_panel(gpu: &GpuData, area: Area, scale: &ThermometerScale) -> (p: Panel)
    requires
        tube_height_of(bordered_inner_of(area).height as int) matches Some(th) ==> scale_fits(
            scale@,
            th as int,
        ),
    ensures
        p.inner == bordered_inner_of(area),
        lines_view(p.lines@) == thermometer_view(
            gpu.temperature as int,
            scale@,
            p.inner.height as int,
        ),
{
    let inner = bordered_inner(area);
    let lines = thermometer_lines(gpu.temperature, scale, inner.height);
    Panel { inner, lines }
}

/// The GPU's name with a space on either side.
pub open spec fn spaced_name(name: Seq<char>) -> Seq<char> {
    seq![' '] + name + seq![' ']
}

/// Double rules to the left of the name: half of the width the spaced name leaves
/// free, counting the name in UTF-8 bytes, rounded down.
pub open spec fn rule_left_of(name: Seq<char>, width: int) -> int {
    sub_held(width, encode_utf8(spaced_name(name)).len() as int) / 2
}

/// Double rules to the right of the name: the rest of the free width.
pub open spec fn rule_right_of(name: Seq<char>, width: int) -> int {
    sub_held(width, encode_utf8(spaced_name(name)).len() as int) - rule_left_of(name, width)
}

/// The title: the spaced name centred between double rules.
pub open spec fn title_of(name: Seq<char>, width: int) -> Seq<char> {
    repeated("═"@, rule_left_of(name, width) as nat) + spaced_name(name) + repeated(
        "═"@,
        rule_right_of(name, width) as nat,
    )
}

/// The title line for a GPU name on a screen `width` columns wide.
pub fn header_title(name: &str, width: u16) -> (s: String)
    requires
        encode_utf8(spaced_name(name@)).len() <= usize::MAX,
    ensures
        s@ == title_of(name@, width as int),
{
    proof {
        reveal_strlit(" ");
        assert(" "@ =~= seq![' ']);
    }
    let spaced = join(join(String::from_str(" "), name), " ");
    assert(spaced@ =~= spaced_name(name@));
    let name_len = spaced.as_str().len();
    let w = width as usize;
    let remaining = if w > name_len { w - name_len } else { 0 };
    let left = remaining / 2;
    let right = remaining - left;
    join(join(repeat_text("═", left), spaced.as_str()), repeat_text("═", right).as_str())
}

/// The header: an empty line, then the title in bold cyan.
pub open spec fn header_view(name: Seq<char>, width: int) -> Seq<Seq<SegmentView>> {
    seq![seq![unstyled(""@)], seq![emphasised(title_of(name, width), Tone::Cyan)]]
}

/// The header lines for a reading on a screen `width` columns wide.
pub fn header_lines(gpu: &GpuData, width: u16) -> (lines: Vec<Vec<Segment>>)
    requires
        encode_utf8(spaced_name(gpu.name@)).len() <= usize::MAX,
    ensures
        lines_view(lines@) == header_view(gpu.name@, width as int),
{
    let mut blank: Vec<Segment> = Vec::new();
    blank.push(plain(String::from_str("")));
    let mut title: Vec<Segment> = Vec::new();
    title.push(emphasise(header_title(gpu.name.as_str(), width), Tone::Cyan));
    let ghost views = header_view(gpu.name@, width as int);
    assert(line_view(blank@) =~= views[0]);
    assert(line_view(title@) =~= views[1]);
    let mut lines: Vec<Vec<Segment>> = Vec::new();
    lines.push(blank);
    lines.push(title);
    assert(lines_view(lines@) =~= views);
    lines
}

/// The footer's hint.
pub open spec fn footer_view() -> Seq<SegmentView> {
    seq![painted(" Press 'q' then Enter to quit "@, Tone::DarkGray)]
}

/// The footer line.
pub fn footer_line() -> (line: Vec<Segment>)
    ensures
        line_view(line@) == footer_view(),
{
    let mut line: Vec<Segment> = Vec::new();
    line.push(paint_str(" Press 'q' then Enter to quit ", Tone::DarkGray));
    assert(line_view(line@) =~= footer_view());
    line
}

/// Where the spaced name fits, the rules and the name fill the width exactly
/// (in bytes of the name), and the right rule is as long as the left one or one
/// longer: the name is centred.
pub proof fn law_title_centred(name: Seq<char>, width: int)
    requires
        encode_utf8(spaced_name(name)).len() <= width,
    ensures
        rule_left_of(name, width) + encode_utf8(spaced_name(name)).len() + rule_right_of(
            name,
            width,
        ) == width,
        0 <= rule_right_of(name, width) - rule_left_of(name, width) <= 1,
{
}

/// The power figures are shown as given, in bold, red exactly when the draw is
/// above 90 % of the limit, yellow exactly when above 70 % up to 90 %, green
/// otherwise; the clock is shown in bold white as its MHz followed by " MHz".
pub proof fn law_power_clock_shown(gpu: GpuData, power_percent: int, power_text: Seq<char>)
    ensures
        ({
            let v = power_clock_view(gpu, power_percent, power_text);
            &&& v.len() == 2
            &&& v[0].len() == 2
            &&& v[0][1].text == power_text
            &&& v[0][1].bold
            &&& (v[0][1].tone == Some(Tone::Red)) == (power_percent > 90)
            &&& (v[0][1].tone == Some(Tone::Yellow)) == (70 < power_percent <= 90)
            &&& (v[0][1].tone == Some(Tone::Green)) == (power_percent <= 70)
            &&& v[1].len() == 2
            &&& v[1][1].text == decimal(gpu.clock_speed as nat) + " MHz"@
            &&& v[1][1].tone == Some(Tone::White)
            &&& v[1][1].bold
        }),
{
}

/// `n` copies of one character.
proof fn lemma_repeated_char(c: char, n: nat)
    ensures
        repeated(seq![c], n) =~= Seq::new(n, |i: int| c),
    decreases n,
{
    if n > 0 {
        lemma_repeated_char(c, (n - 1) as nat);
    }
}

/// The title holds the whole name, with a space on either side, between runs of
/// double rules: `rule_left_of` of them before and `rule_right_of` after, the
/// right run as long as the left or one longer. A name of plain ASCII that fits
/// makes the title exactly `width` characters wide.
pub proof fn law_title_holds_name(name: Seq<char>, width: int)
    ensures
        ({
            let t = title_of(name, width);
            let l = rule_left_of(name, width);
            let r = rule_right_of(name, width);
            &&& 0 <= l
            &&& l <= r <= l + 1
            &&& t.len() == l + name.len() + 2 + r
            &&& t.subrange(l, l + name.len() + 2) == seq![' '] + name + seq![' ']
            &&& forall|i: int| 0 <= i < l ==> t[i] == '═'
            &&& forall|i: int| l + name.len() + 2 <= i < t.len() ==> t[i] == '═'
        }),
        vstd::utf8::is_ascii_chars(name) && name.len() + 2 <= width ==> title_of(name, width).len()
            == width,
{
    reveal_strlit("═");
    assert("═"@ =~= seq!['═']);
    let l = rule_left_of(name, width);
    let r = rule_right_of(name, width);
    lemma_repeated_char('═', l as nat);
    lemma_repeated_char('═', r as nat);
    let t = title_of(name, width);
    let sp = seq![' '] + name + seq![' '];
    assert(spaced_name(name) =~= sp);
    assert(t =~= repeated(seq!['═'], l as nat) + sp + repeated(seq!['═'], r as nat));
    assert(t.subrange(l, l + name.len() + 2) =~= sp);
    if vstd::utf8::is_ascii_chars(name) && name.len() + 2 <= width {
        assert(vstd::utf8::is_ascii_chars(sp));
        vstd::utf8::is_ascii_chars_encode_utf8(sp);
    }
}

} // verus!
