//! The streaming-multiprocessor grid: an 8 × 3 map of cells, as many of them lit
//! as the utilisation asks for, chosen at random, with a caption underneath.
//!
//! How many SMs the utilisation asks for is rounded in `f32` by the caller; which
//! cells light is decided here from random picks.
use vstd::prelude::*;
use crate::gpu::GpuData;
use crate::layout::{bordered_inner, bordered_inner_of, sub_held, Area};
use crate::text::{decimal, decimal_text, join, lemma_repeated_len, repeat_text, repeated};
use crate::tone::Tone;
use crate::view::{
    lemma_text_width_concat, lemma_text_width_uniform, line_view, lines_view, paint, painted,
    plain, text_width, unstyled, Panel, Segment, SegmentView,
};

verus! {

/// Cells per grid row.
pub const GRID_COLUMNS: usize = 8;

/// Rows of cells.
pub const GRID_ROWS: usize = 3;

/// Columns left free around the cells, two on each side.
pub const GRID_PADDING: usize = 4;

/// The grid is drawn only in an inner area at least this wide…
pub const MIN_GRID_WIDTH: u16 = 16;

/// …and at least this high.
pub const MIN_GRID_HEIGHT: u16 = 5;

/// Lit cells from position `i` on.
pub open spec fn lit_from(cells: Seq<bool>, i: int) -> nat
    decreases cells.len() - i,
{
    if i < 0 || i >= cells.len() {
        0
    } else {
        (if cells[i] { 1nat } else { 0nat }) + lit_from(cells, i + 1)
    }
}

/// Dark cells from position `i` on.
pub open spec fn dark_from(cells: Seq<bool>, i: int) -> nat
    decreases cells.len() - i,
{
    if i < 0 || i >= cells.len() {
        0
    } else {
        (if cells[i] { 0nat } else { 1nat }) + dark_from(cells, i + 1)
    }
}

/// Number of lit cells.
pub open spec fn count_lit(cells: Seq<bool>) -> nat {
    lit_from(cells, 0)
}

/// Position of the `k`-th dark cell (counting from 0) at or after position `i`;
/// the length of `cells` where there is none.
pub open spec fn nth_dark_from(cells: Seq<bool>, k: int, i: int) -> int
    decreases cells.len() - i,
{
    if i < 0 || i >= cells.len() {
        cells.len() as int
    } else if !cells[i] {
        if k <= 0 { i } else { nth_dark_from(cells, k - 1, i + 1) }
    } else {
        nth_dark_from(cells, k, i + 1)
    }
}

/// Whether `picks` can light cells among `sm_count`: the `j`-th pick is below the
/// number of cells still dark when it is made.
pub open spec fn picks_valid(sm_count: nat, picks: Seq<usize>) -> bool {
    &&& picks.len() <= sm_count
    &&& forall|j: int| 0 <= j < picks.len() ==> (#[trigger] picks[j]) < sm_count - j
}

/// The cells after the picks: all dark to begin with, then for each pick the
/// pick-th cell still dark is lit (a pick past the last dark cell lights none).
pub open spec fn lit_by_picks(sm_count: nat, picks: Seq<usize>) -> Seq<bool>
    decreases picks.len(),
{
    if picks.len() == 0 {
        Seq::new(sm_count, |i: int| false)
    } else {
        let before = lit_by_picks(sm_count, picks.drop_last());
        let j = nth_dark_from(before, picks.last() as int, 0);
        if 0 <= j < before.len() { before.update(j, true) } else { before }
    }
}

/// Width of one cell, borders included.
pub open spec fn cell_width_of(inner_width: int) -> int {
    (inner_width - GRID_PADDING as int) / GRID_COLUMNS as int
}

/// Width of a cell between its borders.
pub open spec fn cell_inner_of(inner_width: int) -> int {
    sub_held(cell_width_of(inner_width), 2)
}

/// Blank columns before the first cell, centring the cells.
pub open spec fn left_padding_of(inner_width: int) -> int {
    (inner_width - cell_width_of(inner_width) * GRID_COLUMNS as int) / 2
}

/// Number of cells in grid row `row` when there are `sm_count` SMs.
pub open spec fn cells_in_row(row: int, sm_count: int) -> int {
    let first = row * GRID_COLUMNS as int;
    if sm_count >= first + GRID_COLUMNS as int {
        GRID_COLUMNS as int
    } else if sm_count > first {
        sm_count - first
    } else {
        0
    }
}

/// Border colour of a cell: green when lit.
pub open spec fn border_tone(lit: bool) -> Tone {
    if lit { Tone::Green } else { Tone::DarkGray }
}

/// One of the three text rows of a cell: 0 its top border, 1 its middle (filled
/// when lit), 2 its bottom border.
pub open spec fn cell_view(part: int, lit: bool, inner: nat) -> SegmentView {
    if part == 0 {
        painted("┌"@ + repeated("─"@, inner) + "┐"@, border_tone(lit))
    } else if part == 1 {
        if lit {
            painted("│"@ + repeated("█"@, inner) + "│"@, Tone::Green)
        } else {
            painted("│"@ + repeated(" "@, inner) + "│"@, Tone::DarkGray)
        }
    } else {
        painted("└"@ + repeated("─"@, inner) + "┘"@, border_tone(lit))
    }
}

/// Text row `part` of grid row `row`.
pub open spec fn grid_line_view(
    part: int,
    row: int,
    cells: Seq<bool>,
    sm_count: int,
    inner_width: int,
) -> Seq<SegmentView> {
    seq![unstyled(repeated(" "@, left_padding_of(inner_width) as nat))] + Seq::new(
        cells_in_row(row, sm_count) as nat,
        |c: int|
            cell_view(
                part,
                cells[row * GRID_COLUMNS as int + c],
                cell_inner_of(inner_width) as nat,
            ),
    )
}

/// The first `rows` grid rows, three text rows each.
pub open spec fn grid_rows_view(
    rows: nat,
    cells: Seq<bool>,
    sm_count: int,
    inner_width: int,
) -> Seq<Seq<SegmentView>>
    decreases rows,
{
    if rows == 0 {
        Seq::empty()
    } else {
        let r = rows - 1;
        grid_rows_view((rows - 1) as nat, cells, sm_count, inner_width) + seq![
            grid_line_view(0, r, cells, sm_count, inner_width),
            grid_line_view(1, r, cells, sm_count, inner_width),
            grid_line_view(2, r, cells, sm_count, inner_width),
        ]
    }
}

/// The caption: the number of SMs and the utilisation.
pub open spec fn caption_view(sm_count: int, utilization: int, inner_width: int) -> Seq<
    SegmentView,
> {
    seq![
        unstyled(repeated(" "@, left_padding_of(inner_width) as nat)),
        painted(
            decimal(sm_count as nat) + " SMs @ "@ + decimal(utilization as nat) + "% utilization"@,
            Tone::Cyan,
        ),
    ]
}

/// The whole grid for the given cell states in an inner area of the given size;
/// nothing in an area narrower than 16 or lower than 5.
pub open spec fn grid_view(
    cells: Seq<bool>,
    sm_count: int,
    utilization: int,
    inner_width: int,
    inner_height: int,
) -> Seq<Seq<SegmentView>> {
    if inner_height < MIN_GRID_HEIGHT as int || inner_width < MIN_GRID_WIDTH as int {
        Seq::empty()
    } else {
        grid_rows_view(GRID_ROWS as nat, cells, sm_count, inner_width) + seq![
            caption_view(sm_count, utilization, inner_width),
        ]
    }
}

/// The `k`-th dark cell from `i` on exists when there are more than `k`, is dark,
/// and has exactly `k` dark cells between `i` and it.
proof fn lemma_nth_dark(cells: Seq<bool>, k: int, i: int)
    requires
        0 <= i <= cells.len(),
        0 <= k < dark_from(cells, i),
    ensures
        i <= nth_dark_from(cells, k, i) < cells.len(),
        !cells[nth_dark_from(cells, k, i)],
        dark_from(cells, i) - dark_from(cells, nth_dark_from(cells, k, i)) == k,
    decreases cells.len() - i,
{
    if i < cells.len() {
        if !cells[i] {
            if k > 0 {
                lemma_nth_dark(cells, k - 1, i + 1);
            }
        } else {
            lemma_nth_dark(cells, k, i + 1);
        }
    }
}

/// Lighting a dark cell turns one dark cell lit, from any position up to it.
proof fn lemma_light_one(cells: Seq<bool>, r: int, i: int)
    requires
        0 <= i <= r < cells.len(),
        !cells[r],
    ensures
        lit_from(cells.update(r, true), i) == lit_from(cells, i) + 1,
        dark_from(cells.update(r, true), i) + 1 == dark_from(cells, i),
    decreases cells.len() - i,
{
    if i < r {
        lemma_light_one(cells, r, i + 1);
    } else {
        lemma_same_after(cells, r, i + 1);
    }
}

/// Changing a cell does not change the counts after it.
proof fn lemma_same_after(cells: Seq<bool>, r: int, i: int)
    requires
        0 <= r < i,
        r < cells.len(),
    ensures
        lit_from(cells.update(r, true), i) == lit_from(cells, i),
        dark_from(cells.update(r, true), i) == dark_from(cells, i),
    decreases cells.len() - i,
{
    if i < cells.len() {
        lemma_same_after(cells, r, i + 1);
    }
}

/// No cell of an all-dark grid is lit.
proof fn lemma_all_dark(n: nat, i: int)
    requires
        0 <= i <= n,
    ensures
        lit_from(Seq::new(n, |j: int| false), i) == 0,
        dark_from(Seq::new(n, |j: int| false), i) == n - i,
    decreases n - i,
{
    if i < n {
        lemma_all_dark(n, i + 1);
    }
}

/// Valid picks light exactly one cell each, among `sm_count` cells.
pub proof fn law_picks_light_one_each(sm_count: nat, picks: Seq<usize>)
    requires
        picks_valid(sm_count, picks),
    ensures
        lit_by_picks(sm_count, picks).len() == sm_count,
        count_lit(lit_by_picks(sm_count, picks)) == picks.len(),
        dark_from(lit_by_picks(sm_count, picks), 0) == sm_count - picks.len(),
    decreases picks.len(),
{
    if picks.len() == 0 {
        lemma_all_dark(sm_count, 0);
    } else {
        let rest = picks.drop_last();
        assert forall|j: int| 0 <= j < rest.len() implies (#[trigger] rest[j]) < sm_count - j by {
            assert(rest[j] == picks[j]);
        }
        law_picks_light_one_each(sm_count, rest);
        let before = lit_by_picks(sm_count, rest);
        let k = picks.last() as int;
        assert(picks[picks.len() - 1] < sm_count - (picks.len() - 1));
        lemma_nth_dark(before, k, 0);
        lemma_light_one(before, nth_dark_from(before, k, 0), 0);
    }
}

/// A uniformly drawn number below `bound` (`rand`'s `gen_range(0..bound)` on the
/// thread-local generator). Its source panics on an empty range, so `bound` is
/// positive; of the result only that it lies in the range is stated, since it is
/// drawn at random.
#[verifier::external_body]
fn random_below(bound: usize) -> (r: usize)
    requires
        bound > 0,
    ensures
        r < bound,
{
    rand::Rng::gen_range(&mut rand::thread_rng(), 0..bound)
}

/// Position of the `nth` dark cell (counting from 0): a dark cell with exactly
/// `nth` dark cells before it.
pub fn nth_dark(cells: &Vec<bool>, nth: usize) -> (i: usize)
    requires
        nth < dark_from(cells@, 0),
    ensures
        i as int == nth_dark_from(cells@, nth as int, 0),
        i < cells@.len(),
        !cells@[i as int],
        dark_from(cells@, 0) - dark_from(cells@, i as int) == nth,
{
    let n = cells.len();
    let mut i: usize = 0;
    let mut dark: usize = 0;
    while i < n
        invariant
            n == cells@.len(),
            i <= n,
            dark <= nth,
            nth < dark_from(cells@, 0),
            nth - dark < dark_from(cells@, i as int),
            nth_dark_from(cells@, nth as int, 0) == nth_dark_from(
                cells@,
                (nth - dark) as int,
                i as int,
            ),
        decreases n - i,
    {
        if !cells[i] {
            if dark == nth {
                proof {
                    lemma_nth_dark(cells@, nth as int, 0);
                }
                return i;
            }
            dark = dark + 1;
        }
        i = i + 1;
    }
    0
}

/// The cells that the given picks light among `sm_count`: for each pick in turn,
/// the pick-th cell still dark is lit.
pub fn light_cells_by_picks(sm_count: usize, picks: &Vec<usize>) -> (cells: Vec<bool>)
    requires
        picks_valid(sm_count as nat, picks@),
    ensures
        cells@ == lit_by_picks(sm_count as nat, picks@),
        count_lit(cells@) == picks@.len(),
{
    let mut cells: Vec<bool> = Vec::new();
    let mut k: usize = 0;
    while k < sm_count
        invariant
            k <= sm_count,
            cells@ =~= Seq::new(k as nat, |i: int| false),
        decreases sm_count - k,
    {
        cells.push(false);
        k = k + 1;
    }
    let mut j: usize = 0;
    while j < picks.len()
        invariant
            j <= picks@.len(),
            picks_valid(sm_count as nat, picks@),
            cells@ == lit_by_picks(sm_count as nat, picks@.take(j as int)),
        decreases picks@.len() - j,
    {
        let ghost done = picks@.take(j as int);
        assert(picks@.take(j as int + 1).drop_last() =~= done);
        assert forall|m: int| 0 <= m < done.len() implies (#[trigger] done[m]) < sm_count - m by {
            assert(done[m] == picks@[m]);
        }
        proof {
            law_picks_light_one_each(sm_count as nat, done);
        }
        let idx = nth_dark(&cells, picks[j]);
        cells.set(idx, true);
        j = j + 1;
    }
    assert(picks@.take(picks@.len() as int) =~= picks@);
    proof {
        law_picks_light_one_each(sm_count as nat, picks@);
    }
    cells
}

/// `sm_count` cells with `lit` of them lit at random: each pick is drawn below
/// the number of cells still dark, and lights that dark cell.
pub fn light_cells(sm_count: usize, lit: usize) -> (cells: Vec<bool>)
    requires
        lit <= sm_count,
    ensures
        exists|picks: Seq<usize>|
            {
                &&& picks_valid(sm_count as nat, picks)
                &&& picks.len() == lit
                &&& cells@ == lit_by_picks(sm_count as nat, picks)
            },
        cells@.len() == sm_count,
        count_lit(cells@) == lit,
{
    let mut picks: Vec<usize> = Vec::new();
    while picks.len() < lit
        invariant
            picks@.len() <= lit <= sm_count,
            picks_valid(sm_count as nat, picks@),
        decreases lit - picks@.len(),
    {
        let j = picks.len();
        let pick = random_below(sm_count - j);
        let ghost before = picks@;
        picks.push(pick);
        assert forall|m: int| 0 <= m < picks@.len() implies (#[trigger] picks@[m]) < sm_count
            - m by {
            if m < j {
                assert(picks@[m] == before[m]);
            }
        }
    }
    let cells = light_cells_by_picks(sm_count, &picks);
    proof {
        law_picks_light_one_each(sm_count as nat, picks@);
    }
    cells
}

fn cell_segment(part: usize, lit: bool, inner: usize) -> (s: Segment)
    requires
        part < 3,
    ensures
        s@ == cell_view(part as int, lit, inner as nat),
{
    if part == 0 {
        let t = join(join(String::from_str("┌"), repeat_text("─", inner).as_str()), "┐");
        paint(t, if lit { Tone::Green } else { Tone::DarkGray })
    } else if part == 1 {
        if lit {
            paint(join(join(String::from_str("│"), repeat_text("█", inner).as_str()), "│"), Tone::Green)
        } else {
            paint(join(join(String::from_str("│"), repeat_text(" ", inner).as_str()), "│"), Tone::DarkGray)
        }
    } else {
        let t = join(join(String::from_str("└"), repeat_text("─", inner).as_str()), "┘");
        paint(t, if lit { Tone::Green } else { Tone::DarkGray })
    }
}

fn grid_line(
    part: usize,
    row: usize,
    cells: &Vec<bool>,
    sm_count: usize,
    inner_width: u16,
) -> (line: Vec<Segment>)
    requires
        part < 3,
        row < GRID_ROWS,
        cells@.len() == sm_count,
        inner_width >= MIN_GRID_WIDTH,
    ensures
        line_view(line@) == grid_line_view(
            part as int,
            row as int,
            cells@,
            sm_count as int,
            inner_width as int,
        ),
{
    let w = inner_width as usize;
    let cell_width = (w - GRID_PADDING) / GRID_COLUMNS;
    let cell_inner = if cell_width >= 2 { cell_width - 2 } else { 0 };
    assert(cell_width * GRID_COLUMNS <= w) by (nonlinear_arith)
        requires
            cell_width == (w - 4) / 8,
            w >= 16,
    ;
    let left_padding = (w - cell_width * GRID_COLUMNS) / 2;
    let ghost lp = left_padding_of(inner_width as int);
    assert(left_padding == lp);
    assert(cell_inner == cell_inner_of(inner_width as int));
    let mut line: Vec<Segment> = Vec::new();
    line.push(plain(repeat_text(" ", left_padding)));
    let first = row * GRID_COLUMNS;
    let count = if sm_count >= first + GRID_COLUMNS {
        GRID_COLUMNS
    } else if sm_count > first {
        sm_count - first
    } else {
        0
    };
    assert(count == cells_in_row(row as int, sm_count as int));
    let mut c: usize = 0;
    while c < count
        invariant
            c <= count,
            count == cells_in_row(row as int, sm_count as int),
            first == row * GRID_COLUMNS,
            row < GRID_ROWS,
            part < 3,
            cells@.len() == sm_count,
            cell_inner == cell_inner_of(inner_width as int),
            lp == left_padding_of(inner_width as int),
            line_view(line@) =~= seq![unstyled(repeated(" "@, lp as nat))] + Seq::new(
                c as nat,
                |j: int| cell_view(part as int, cells@[row * GRID_COLUMNS as int + j], cell_inner as nat),
            ),
        decreases count - c,
    {
        let seg = cell_segment(part, cells[first + c], cell_inner);
        let ghost before = line@;
        line.push(seg);
        assert(line_view(line@) =~= line_view(before).push(seg@));
        c = c + 1;
    }
    line
}

/// The grid's lines for the given cell states, in an inner area of the given size.
pub fn sm_grid_lines(
    cells: &Vec<bool>,
    sm_count: u32,
    utilization: u32,
    inner_width: u16,
    inner_height: u16,
) -> (lines: Vec<Vec<Segment>>)
    requires
        cells@.len() == sm_count,
    ensures
        lines_view(lines@) == grid_view(
            cells@,
            sm_count as int,
            utilization as int,
            inner_width as int,
            inner_height as int,
        ),
{
    let mut lines: Vec<Vec<Segment>> = Vec::new();
    if inner_height < MIN_GRID_HEIGHT || inner_width < MIN_GRID_WIDTH {
        assert(lines_view(lines@) =~= Seq::<Seq<SegmentView>>::empty());
        return lines;
    }
    let n = sm_count as usize;
    let mut r: usize = 0;
    assert(lines_view(lines@) =~= grid_rows_view(0, cells@, n as int, inner_width as int));
    while r < GRID_ROWS
        invariant
            r <= GRID_ROWS,
            n == sm_count,
            cells@.len() == n,
            inner_width >= MIN_GRID_WIDTH,
            lines_view(lines@) =~= grid_rows_view(r as nat, cells@, n as int, inner_width as int),
        decreases GRID_ROWS - r,
    {
        let ghost before = lines@;
        let top = grid_line(0, r, cells, n, inner_width);
        let mid = grid_line(1, r, cells, n, inner_width);
        let bottom = grid_line(2, r, cells, n, inner_width);
        lines.push(top);
        lines.push(mid);
        lines.push(bottom);
        assert(lines_view(lines@) =~= lines_view(before) + seq![
            grid_line_view(0, r as int, cells@, n as int, inner_width as int),
            grid_line_view(1, r as int, cells@, n as int, inner_width as int),
            grid_line_view(2, r as int, cells@, n as int, inner_width as int),
        ]);
        r = r + 1;
    }
    let w = inner_width as usize;
    let cell_width = (w - GRID_PADDING) / GRID_COLUMNS;
    assert(cell_width * GRID_COLUMNS <= w) by (nonlinear_arith)
        requires
            cell_width == (w - 4) / 8,
            w >= 16,
    ;
    let left_padding = (w - cell_width * GRID_COLUMNS) / 2;
    let caption = join(
        join(
            join(decimal_text(sm_count as u64), " SMs @ "),
            decimal_text(utilization as u64).as_str(),
        ),
        "% utilization",
    );
    let mut last: Vec<Segment> = Vec::new();
    last.push(plain(repeat_text(" ", left_padding)));
    last.push(paint(caption, Tone::Cyan));
    let ghost before = lines@;
    assert(line_view(last@) =~= caption_view(sm_count as int, utilization as int, inner_width as int));
    lines.push(last);
    assert(lines_view(lines@) =~= lines_view(before).push(line_view(last@)));
    lines
}

/// The grid panel for a reading, drawn in `area` (border included), lighting
/// `active_sms` cells at random (no more than there are SMs).
pub fn sm_grid_panel(gpu: &GpuData, area: Area, active_sms: usize) -> (p: Panel)
    ensures
        p.inner == bordered_inner_of(area),
        (p.inner.height < MIN_GRID_HEIGHT || p.inner.width < MIN_GRID_WIDTH) ==> p.lines@.len()
            == 0,
        (p.inner.height >= MIN_GRID_HEIGHT && p.inner.width >= MIN_GRID_WIDTH) ==> exists|
            picks: Seq<usize>,
        |
            {
                &&& picks_valid(gpu.sm_count as nat, picks)
                &&& picks.len() == (if active_sms < gpu.sm_count {
                    active_sms as nat
                } else {
                    gpu.sm_count as nat
                })
                &&& lines_view(p.lines@) == grid_view(
                    lit_by_picks(gpu.sm_count as nat, picks),
                    gpu.sm_count as int,
                    gpu.utilization as int,
                    p.inner.width as int,
                    p.inner.height as int,
                )
            },
{
    let inner = bordered_inner(area);
    if inner.height < MIN_GRID_HEIGHT || inner.width < MIN_GRID_WIDTH {
        return Panel { inner, lines: Vec::new() };
    }
    let n = gpu.sm_count as usize;
    let lit = if active_sms < n { active_sms } else { n };
    let cells = light_cells(n, lit);
    let lines = sm_grid_lines(&cells, gpu.sm_count, gpu.utilization, inner.width, inner.height);
    Panel { inner, lines }
}

/// Picks keep the number of cells.
proof fn lemma_picks_len(sm_count: nat, picks: Seq<usize>)
    ensures
        lit_by_picks(sm_count, picks).len() == sm_count,
    decreases picks.len(),
{
    if picks.len() > 0 {
        lemma_picks_len(sm_count, picks.drop_last());
    }
}

/// In an all-dark grid the `k`-th dark cell from `j` on is cell `j + k`.
proof fn lemma_nth_dark_all_dark(n: nat, k: int, j: int)
    requires
        0 <= j,
        0 <= k,
        j + k < n,
    ensures
        nth_dark_from(Seq::new(n, |i: int| false), k, j) == j + k,
    decreases k,
{
    if k > 0 {
        lemma_nth_dark_all_dark(n, k - 1, j + 1);
    }
}

/// A cell that some first picks light stays lit after any further picks.
proof fn lemma_lit_stays(sm_count: nat, picks: Seq<usize>, k: int, i: int)
    requires
        0 <= k <= picks.len(),
        0 <= i < sm_count,
        lit_by_picks(sm_count, picks.take(k))[i],
    ensures
        lit_by_picks(sm_count, picks)[i],
    decreases picks.len(),
{
    if k < picks.len() {
        let rest = picks.drop_last();
        assert(rest.take(k) =~= picks.take(k));
        lemma_lit_stays(sm_count, rest, k, i);
        lemma_picks_len(sm_count, rest);
    } else {
        assert(picks.take(k) =~= picks);
    }
}

/// Any cell can be among the lit ones: for every number of lit cells from one up
/// to the number of SMs (as many as a `Vec` can hold), and every cell, some valid
/// picks light that cell.
pub proof fn law_any_cell_can_light(sm_count: nat, lit: nat, i: int)
    requires
        0 < lit <= sm_count <= usize::MAX,
        0 <= i < sm_count,
    ensures
        exists|picks: Seq<usize>|
            {
                &&& picks_valid(sm_count, picks)
                &&& picks.len() == lit
                &&& lit_by_picks(sm_count, picks)[i]
            },
{
    let picks: Seq<usize> = Seq::new(lit, |j: int| if j == 0 { i as usize } else { 0usize });
    assert(picks_valid(sm_count, picks));
    let first = picks.take(1);
    assert(first.drop_last() =~= Seq::<usize>::empty());
    assert(first.last() as int == i);
    let dark = Seq::new(sm_count, |j: int| false);
    assert(lit_by_picks(sm_count, first.drop_last()) == dark);
    lemma_nth_dark_all_dark(sm_count, i, 0);
    assert(nth_dark_from(dark, i, 0) == i);
    assert(lit_by_picks(sm_count, first)[i]);
    lemma_lit_stays(sm_count, picks, 1, i);
}

/// The grid shows each cell's state: the middle of cell `c` in grid row `r` is
/// filled with blocks in green exactly when the cell is lit, and its borders are
/// green exactly when it is lit, grey otherwise.
pub proof fn law_grid_shows_cells(
    cells: Seq<bool>,
    sm_count: int,
    utilization: int,
    inner_width: int,
    inner_height: int,
    r: int,
    c: int,
)
    requires
        inner_width >= MIN_GRID_WIDTH as int,
        inner_height >= MIN_GRID_HEIGHT as int,
        0 <= r < GRID_ROWS as int,
        0 <= c < cells_in_row(r, sm_count),
    ensures
        ({
            let v = grid_view(cells, sm_count, utilization, inner_width, inner_height);
            let lit = cells[r * GRID_COLUMNS as int + c];
            &&& (v[3 * r][c + 1].tone == Some(Tone::Green)) == lit
            &&& (v[3 * r + 1][c + 1].tone == Some(Tone::Green)) == lit
            &&& (v[3 * r + 2][c + 1].tone == Some(Tone::Green)) == lit
            &&& !lit ==> v[3 * r + 1][c + 1].tone == Some(Tone::DarkGray)
            &&& lit ==> v[3 * r + 1][c + 1].text == "│"@ + repeated(
                "█"@,
                cell_inner_of(inner_width) as nat,
            ) + "│"@
        }),
{
    reveal_with_fuel(grid_rows_view, 4);
    let v = grid_view(cells, sm_count, utilization, inner_width, inner_height);
    assert(v[3 * r] == grid_line_view(0, r, cells, sm_count, inner_width));
    assert(v[3 * r + 1] == grid_line_view(1, r, cells, sm_count, inner_width));
    assert(v[3 * r + 2] == grid_line_view(2, r, cells, sm_count, inner_width));
}

/// The caption under the grid reads "N SMs @ U% utilization" in cyan.
pub proof fn law_grid_caption(
    cells: Seq<bool>,
    sm_count: int,
    utilization: int,
    inner_width: int,
    inner_height: int,
)
    requires
        inner_width >= MIN_GRID_WIDTH as int,
        inner_height >= MIN_GRID_HEIGHT as int,
        sm_count >= 0,
        utilization >= 0,
    ensures
        ({
            let v = grid_view(cells, sm_count, utilization, inner_width, inner_height);
            &&& v[9][1].text == decimal(sm_count as nat) + " SMs @ "@ + decimal(
                utilization as nat,
            ) + "% utilization"@
            &&& v[9][1].tone == Some(Tone::Cyan)
        }),
{
    reveal_with_fuel(grid_rows_view, 4);
}

/// A grid that is drawn has ten lines: three per grid row and the caption.
pub proof fn law_grid_line_count(
    cells: Seq<bool>,
    sm_count: int,
    utilization: int,
    inner_width: int,
    inner_height: int,
)
    requires
        inner_width >= MIN_GRID_WIDTH as int,
        inner_height >= MIN_GRID_HEIGHT as int,
    ensures
        grid_view(cells, sm_count, utilization, inner_width, inner_height).len() == 10,
{
    reveal_with_fuel(grid_rows_view, 4);
}

/// Every cell row stays within the panel: where cells are at least two columns
/// wide (an inner width of 20 or more), the padding and the cells of any grid row
/// together take no more columns than there are.
pub proof fn law_cell_rows_fit(
    part: int,
    row: int,
    cells: Seq<bool>,
    sm_count: int,
    inner_width: int,
)
    requires
        0 <= part < 3,
        inner_width >= 20,
        0 <= row,
        row * GRID_COLUMNS as int + cells_in_row(row, sm_count) <= cells.len(),
    ensures
        text_width(grid_line_view(part, row, cells, sm_count, inner_width)) <= inner_width,
{
    reveal_strlit("┌");
    reveal_strlit("─");
    reveal_strlit("┐");
    reveal_strlit("│");
    reveal_strlit("█");
    reveal_strlit(" ");
    reveal_strlit("└");
    reveal_strlit("┘");
    let cw = cell_width_of(inner_width);
    let ci = cell_inner_of(inner_width);
    let lp = left_padding_of(inner_width);
    let k = cells_in_row(row, sm_count);
    assert(cw >= 2);
    assert(ci == cw - 2);
    assert(8 * cw <= inner_width - 4);
    let pad = seq![unstyled(repeated(" "@, lp as nat))];
    let body = Seq::new(
        k as nat,
        |c: int| cell_view(part, cells[row * GRID_COLUMNS as int + c], ci as nat),
    );
    lemma_repeated_len(" "@, lp as nat);
    lemma_repeated_len("─"@, ci as nat);
    lemma_repeated_len("█"@, ci as nat);
    lemma_repeated_len(" "@, ci as nat);
    assert forall|i: int| 0 <= i < body.len() implies (#[trigger] body[i]).text.len() == (ci
        + 2) as nat by {}
    lemma_text_width_uniform(body, (ci + 2) as nat);
    lemma_text_width_concat(pad, body);
    assert(text_width(pad) == lp) by {
        assert(pad.drop_last() =~= Seq::<SegmentView>::empty());
        assert(text_width(pad.drop_last()) == 0);
        assert(" "@.len() == 1);
        assert(pad.last().text.len() == lp * 1);
        assert(lp * 1 == lp);
    }
    assert(grid_line_view(part, row, cells, sm_count, inner_width) == pad + body);
    assert(k * (ci + 2) <= 8 * cw) by (nonlinear_arith)
        requires
            0 <= k <= 8,
            ci + 2 == cw,
            cw >= 2,
    ;
}

} // verus!
