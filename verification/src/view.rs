//! Styled text as the dashboard hands it to the terminal: lines of segments.
use vstd::prelude::*;
use crate::layout::Area;
use crate::tone::Tone;

verus! {

/// A run of text with one style. `tone` is `None` for unstyled text.
#[derive(Debug)]
pub struct Segment {
    pub text: String,
    pub tone: Option<Tone>,
    pub bold: bool,
}

/// What a segment shows: its characters and its style.
pub struct SegmentView {
    pub text: Seq<char>,
    pub tone: Option<Tone>,
    pub bold: bool,
}

impl View for Segment {
    type V = SegmentView;

    open spec fn view(&self) -> SegmentView {
        SegmentView { text: self.text@, tone: self.tone, bold: self.bold }
    }
}

/// Characters a line takes on screen, counting one column per character.
pub open spec fn text_width(line: Seq<SegmentView>) -> nat
    decreases line.len(),
{
    if line.len() == 0 {
        0
    } else {
        text_width(line.drop_last()) + line.last().text.len()
    }
}

/// The width of two lines side by side is the sum of their widths.
pub proof fn lemma_text_width_concat(a: Seq<SegmentView>, b: Seq<SegmentView>)
    ensures
        text_width(a + b) == text_width(a) + text_width(b),
    decreases b.len(),
{
    if b.len() == 0 {
        assert(a + b =~= a);
    } else {
        assert((a + b).drop_last() =~= a + b.drop_last());
        lemma_text_width_concat(a, b.drop_last());
    }
}

/// A line of `k` segments that are each `m` characters wide is `k * m` wide.
pub proof fn lemma_text_width_uniform(line: Seq<SegmentView>, m: nat)
    requires
        forall|i: int| 0 <= i < line.len() ==> (#[trigger] line[i]).text.len() == m,
    ensures
        text_width(line) == line.len() * m,
    decreases line.len(),
{
    if line.len() > 0 {
        lemma_text_width_uniform(line.drop_last(), m);
        assert(text_width(line) == (line.len() - 1) * m + m);
        assert((line.len() - 1) * m + m == line.len() * m) by (nonlinear_arith);
    }
}

/// A plain segment of the given characters and colour.
pub open spec fn painted(text: Seq<char>, tone: Tone) -> SegmentView {
    SegmentView { text, tone: Some(tone), bold: false }
}

/// An unstyled segment.
pub open spec fn unstyled(text: Seq<char>) -> SegmentView {
    SegmentView { text, tone: None, bold: false }
}

/// A bold segment of the given colour.
pub open spec fn emphasised(text: Seq<char>, tone: Tone) -> SegmentView {
    SegmentView { text, tone: Some(tone), bold: true }
}

/// What a line shows.
pub open spec fn line_view(line: Seq<Segment>) -> Seq<SegmentView> {
    line.map_values(|s: Segment| s@)
}

/// What a block of lines shows.
pub open spec fn lines_view(lines: Seq<Vec<Segment>>) -> Seq<Seq<SegmentView>> {
    lines.map_values(|l: Vec<Segment>| line_view(l@))
}

/// A coloured segment.
pub fn paint(text: String, tone: Tone) -> (s: Segment)
    ensures
        s@ == painted(text@, tone),
{
    Segment { text, tone: Some(tone), bold: false }
}

/// A coloured segment of a literal.
pub fn paint_str(text: &str, tone: Tone) -> (s: Segment)
    ensures
        s@ == painted(text@, tone),
{
    Segment { text: String::from_str(text), tone: Some(tone), bold: false }
}

/// An unstyled segment.
pub fn plain(text: String) -> (s: Segment)
    ensures
        s@ == unstyled(text@),
{
    Segment { text, tone: None, bold: false }
}

/// A bold coloured segment.
pub fn emphasise(text: String, tone: Tone) -> (s: Segment)
    ensures
        s@ == emphasised(text@, tone),
{
    Segment { text, tone: Some(tone), bold: true }
}

/// A bordered panel's inside and the lines drawn there.
#[derive(Debug)]
pub struct Panel {
    pub inner: Area,
    pub lines: Vec<Vec<Segment>>,
}

} // verus!
