//! Where a run of text lies on the framebuffer, in exact fractions of a
//! pixel. Glyphs are set at a fixed pitch: every character advances the pen
//! by one cell, whatever the width of its ink.

use vstd::prelude::*;
use crate::tui::{DrawOp, DrawOpView, Frame, Ratio, Rgba, TuiMetrics};

verus! {

/// The share of a cell's height, in hundredths, that lies above the
/// baseline of its glyph.
pub const BASELINE_PERCENT: u64 = 82;

/// The pixel geometry of one run of text.
#[derive(Debug, Clone, Copy, PartialEq, Eq, Structural)]
pub struct TextPlacement {
    /// Left edge of the run.
    pub x: Ratio,
    /// Top edge of the run.
    pub y: Ratio,
    /// How far the pen advances from one character to the next.
    pub advance: Ratio,
    /// Height of the run's cells.
    pub height: Ratio,
    /// Size at which the glyphs are rasterised.
    pub font_size: Ratio,
    /// The line on which the glyphs stand.
    pub baseline: Ratio,
    /// Width of the whole run: of the rectangle that a background fills.
    pub width: Ratio,
}

impl Ratio {
    /// The fraction times the whole number `k`, if its numerator can be
    /// held.
    pub open spec fn times(self, k: int) -> Option<Ratio> {
        if 0 <= self.num * k <= u64::MAX {
            Some(Ratio { num: (self.num * k) as u64, den: self.den })
        } else {
            None
        }
    }

    /// Multiplies the fraction by a whole number.
    pub fn scaled(self, k: usize) -> (r: Option<Ratio>)
        ensures
            r == self.times(k as int),
    {
        assert(0 <= self.num * k) by (nonlinear_arith);
        match self.num.checked_mul(k as u64) {
            Some(num) => Some(Ratio { num, den: self.den }),
            None => None,
        }
    }
}

/// The baseline of a run whose top edge is `row` cells of height `cell`
/// down and whose glyphs are `scale` cells high: 82 % of the run's height
/// below its top edge.
pub open spec fn baseline_of(cell: Ratio, row: usize, scale: usize) -> Option<Ratio> {
    if (100 * row + BASELINE_PERCENT * scale) * cell.num <= u64::MAX && 100 * cell.den
        <= u64::MAX {
        Some(
            Ratio {
                num: ((100 * row + BASELINE_PERCENT * scale) * cell.num) as u64,
                den: (100 * cell.den) as u64,
            },
        )
    } else {
        None
    }
}

/// The geometry of a run of `count` characters that starts at column
/// `col`, row `row` of the grid, at `scale` times the normal size. Its
/// left and top edges are whole cells of normal size from the origin; its
/// cells, its glyphs and its pitch are `scale` times the grid's; its width
/// is `count` cells of that pitch. There is none where a numerator, or that
/// of the run's right edge, does not fit into 64 bits: such a run lies far
/// outside every framebuffer.
pub open spec fn placement_of(
    metrics: TuiMetrics,
    count: usize,
    col: usize,
    row: usize,
    scale: usize,
) -> Option<TextPlacement> {
    if metrics.char_width.times(col as int) is Some && metrics.char_height.times(row as int)
        is Some && metrics.char_width.times(scale as int) is Some && metrics.char_height.times(
        scale as int,
    ) is Some && metrics.font_size.times(scale as int) is Some && baseline_of(
        metrics.char_height,
        row,
        scale,
    ) is Some && metrics.char_width.times(scale as int).unwrap().times(count as int) is Some
        && metrics.char_width.times(col as int).unwrap().num + metrics.char_width.times(
        scale as int,
    ).unwrap().times(count as int).unwrap().num <= u64::MAX {
        Some(
            TextPlacement {
                x: metrics.char_width.times(col as int).unwrap(),
                y: metrics.char_height.times(row as int).unwrap(),
                advance: metrics.char_width.times(scale as int).unwrap(),
                height: metrics.char_height.times(scale as int).unwrap(),
                font_size: metrics.font_size.times(scale as int).unwrap(),
                baseline: baseline_of(metrics.char_height, row, scale).unwrap(),
                width: metrics.char_width.times(scale as int).unwrap().times(count as int).unwrap(),
            },
        )
    } else {
        None
    }
}

fn baseline(cell: Ratio, row: usize, scale: usize) -> (line: Option<Ratio>)
    ensures
        line == baseline_of(cell, row, scale),
{
    let cells: u128 = 100 * (row as u128) + (BASELINE_PERCENT as u128) * (scale as u128);
    let num: u128 = if cell.num == 0 {
        assert(cells * cell.num == 0) by (nonlinear_arith)
            requires
                cell.num == 0,
        ;
        0
    } else if cells > u64::MAX as u128 {
        assert(cells * cell.num > u64::MAX) by (nonlinear_arith)
            requires
                cells > u64::MAX,
                cell.num >= 1,
        ;
        return None;
    } else {
        assert(cells * (cell.num as u128) <= 0xffff_ffff_ffff_ffff * 0xffff_ffff_ffff_ffff)
            by (nonlinear_arith)
            requires
                cells <= 0xffff_ffff_ffff_ffff,
                cell.num <= 0xffff_ffff_ffff_ffff,
        ;
        cells * (cell.num as u128)
    };
    let den: u128 = 100 * (cell.den as u128);
    if num <= u64::MAX as u128 && den <= u64::MAX as u128 {
        Some(Ratio { num: num as u64, den: den as u64 })
    } else {
        None
    }
}

/// Works out where a run of text lies on the framebuffer.
pub fn place_text(metrics: &TuiMetrics, count: usize, col: usize, row: usize, scale: usize) -> (placement:
    Option<TextPlacement>)
    ensures
        placement == placement_of(*metrics, count, col, row, scale),
{
    let x = match metrics.char_width.scaled(col) {
        Some(x) => x,
        None => {
            return None;
        },
    };
    let y = match metrics.char_height.scaled(row) {
        Some(y) => y,
        None => {
            return None;
        },
    };
    let advance = match metrics.char_width.scaled(scale) {
        Some(advance) => advance,
        None => {
            return None;
        },
    };
    let height = match metrics.char_height.scaled(scale) {
        Some(height) => height,
        None => {
            return None;
        },
    };
    let font_size = match metrics.font_size.scaled(scale) {
        Some(font_size) => font_size,
        None => {
            return None;
        },
    };
    let line = match baseline(metrics.char_height, row, scale) {
        Some(line) => line,
        None => {
            return None;
        },
    };
    let width = match advance.scaled(count) {
        Some(width) => width,
        None => {
            return None;
        },
    };
    if x.num.checked_add(width.num).is_none() {
        return None;
    }
    Some(TextPlacement { x, y, advance, height, font_size, baseline: line, width })
}

/// On the grid of a framebuffer, a run at normal size starts a whole number
/// of cells from the origin, its cells are the grid's, and its width is
/// that of as many cells as it has characters.
pub proof fn lemma_placement_on_grid(metrics: TuiMetrics, count: usize, col: usize, row: usize)
    requires
        placement_of(metrics, count, col, row, 1) is Some,
    ensures
        ({
            let p = placement_of(metrics, count, col, row, 1).unwrap();
            &&& p.advance == metrics.char_width
            &&& p.height == metrics.char_height
            &&& p.font_size == metrics.font_size
            &&& p.x.num == col * metrics.char_width.num && p.x.den == metrics.char_width.den
            &&& p.y.num == row * metrics.char_height.num && p.y.den == metrics.char_height.den
            &&& p.width.num == count * metrics.char_width.num && p.width.den
                == metrics.char_width.den
            &&& p.baseline.num * 100 * metrics.char_height.den == (100 * p.y.num + 82
                * metrics.char_height.num) * p.baseline.den
        }),
{
    let p = placement_of(metrics, count, col, row, 1).unwrap();
    let h = metrics.char_height;
    assert(metrics.char_width.num * col == col * metrics.char_width.num) by (nonlinear_arith);
    assert(h.num * row == row * h.num) by (nonlinear_arith);
    assert(metrics.char_width.num * count == count * metrics.char_width.num) by (nonlinear_arith);
    assert(p.baseline.num == (100 * row + 82) * h.num);
    assert(p.baseline.den == 100 * h.den);
    assert(((100 * row + 82) * h.num) * 100 * h.den == (100 * (row * h.num) + 82 * h.num) * (100
        * h.den)) by (nonlinear_arith);
}

/// One step of putting a run of text onto the framebuffer.
#[derive(Debug, Clone, Copy, PartialEq, Eq, Structural)]
pub enum RasterStep {
    /// Cover the whole framebuffer with one colour.
    Clear { color: Rgba },
    /// Fit the picture into a rectangle and centre it there.
    Picture { x: Ratio, y: Ratio, width: Ratio, height: Ratio },
    /// Fill a rectangle with one colour.
    FillRect { x: Ratio, y: Ratio, width: Ratio, height: Ratio, color: Rgba },
    /// Rasterise the outline of `ch` at `size`, with the pen at `x` on the
    /// line `baseline`, and composite it in `color` over what is there.
    Glyph { ch: char, x: Ratio, baseline: Ratio, size: Ratio, color: Rgba },
}

/// The step that draws character `i` of a run: the pen has advanced `i`
/// times from the run's left edge.
pub open spec fn glyph_step(text: Seq<char>, placement: TextPlacement, color: Rgba, i: int) -> RasterStep {
    RasterStep::Glyph {
        ch: text[i],
        x: Ratio { num: (placement.x.num + i * placement.advance.num) as u64, den: placement.x.den },
        baseline: placement.baseline,
        size: placement.font_size,
        color,
    }
}

/// The steps that draw a run of text, in order. A run with a background
/// starts with the filling of its rectangle, so that the glyphs come to lie
/// on top of it; then comes one glyph for every character, each a fixed
/// pitch after the one before. A run that has no placement has no steps.
pub open spec fn text_steps(
    metrics: TuiMetrics,
    text: Seq<char>,
    col: usize,
    row: usize,
    color: Rgba,
    bg: Option<Rgba>,
    scale: usize,
) -> Seq<RasterStep> {
    match placement_of(metrics, text.len() as usize, col, row, scale) {
        Some(p) => (match bg {
            Some(fill) => seq![
                RasterStep::FillRect { x: p.x, y: p.y, width: p.width, height: p.height, color: fill },
            ],
            None => Seq::empty(),
        }) + Seq::new(text.len(), |i: int| glyph_step(text, p, color, i)),
        None => Seq::empty(),
    }
}

/// Lays out a run of text as the steps that draw it.
pub fn plan_text(
    metrics: &TuiMetrics,
    text: &str,
    col: usize,
    row: usize,
    color: Rgba,
    bg: Option<Rgba>,
    scale: usize,
) -> (steps: Vec<RasterStep>)
    ensures
        steps@ == text_steps(*metrics, text@, col, row, color, bg, scale),
{
    let count = text.unicode_len();
    let mut steps: Vec<RasterStep> = Vec::new();
    let p = match place_text(metrics, count, col, row, scale) {
        Some(p) => p,
        None => {
            return steps;
        },
    };
    match bg {
        Some(fill) => {
            steps.push(
                RasterStep::FillRect { x: p.x, y: p.y, width: p.width, height: p.height, color: fill },
            );
        },
        None => {},
    }
    let ghost head = steps@;
    let mut i: usize = 0;
    let mut pen: u64 = p.x.num;
    while i < count
        invariant
            i <= count,
            count == text@.len(),
            pen == p.x.num + i * p.advance.num,
            p.width.num == p.advance.num * count,
            p.x.num + p.width.num <= u64::MAX,
            steps@ == head + Seq::new(i as nat, |k: int| glyph_step(text@, p, color, k)),
        decreases count - i,
    {
        steps.push(
            RasterStep::Glyph {
                ch: text.get_char(i),
                x: Ratio { num: pen, den: p.x.den },
                baseline: p.baseline,
                size: p.font_size,
                color,
            },
        );
        assert(steps@ =~= head + Seq::new((i + 1) as nat, |k: int| glyph_step(text@, p, color, k)));
        assert((i + 1) * p.advance.num <= p.advance.num * count && (i + 1) * p.advance.num == i
            * p.advance.num + p.advance.num) by (nonlinear_arith)
            requires
                i + 1 <= count,
        ;
        pen = pen + p.advance.num;
        i = i + 1;
    }
    steps
}

/// The step that shows a picture in a box of `w` by `h` cells at column
/// `col`, row `row`; none where the box cannot be put in numbers.
pub open spec fn picture_steps(metrics: TuiMetrics, col: usize, row: usize, w: usize, h: usize) -> Seq<
    RasterStep,
> {
    if metrics.char_width.times(col as int) is Some && metrics.char_height.times(row as int)
        is Some && metrics.char_width.times(w as int) is Some && metrics.char_height.times(
        h as int,
    ) is Some {
        seq![
            RasterStep::Picture {
                x: metrics.char_width.times(col as int).unwrap(),
                y: metrics.char_height.times(row as int).unwrap(),
                width: metrics.char_width.times(w as int).unwrap(),
                height: metrics.char_height.times(h as int).unwrap(),
            },
        ]
    } else {
        Seq::empty()
    }
}

/// The steps that paint one thing of a frame.
pub open spec fn op_steps(metrics: TuiMetrics, op: DrawOpView) -> Seq<RasterStep> {
    match op {
        DrawOpView::Fill { color } => seq![RasterStep::Clear { color }],
        DrawOpView::Text { text, col, row, color, bg, scale } => text_steps(
            metrics,
            text,
            col,
            row,
            color,
            bg,
            scale,
        ),
        DrawOpView::Image { col, row, w, h } => picture_steps(metrics, col, row, w, h),
    }
}

/// The steps that paint a frame: those of its first thing, then those of
/// the next, and so on.
pub open spec fn frame_steps(metrics: TuiMetrics, ops: Seq<DrawOpView>) -> Seq<RasterStep>
    decreases ops.len(),
{
    if ops.len() == 0 {
        Seq::empty()
    } else {
        frame_steps(metrics, ops.drop_last()) + op_steps(metrics, ops.last())
    }
}

/// Lays out the box of a picture.
pub fn plan_picture(metrics: &TuiMetrics, col: usize, row: usize, w: usize, h: usize) -> (steps:
    Vec<RasterStep>)
    ensures
        steps@ == picture_steps(*metrics, col, row, w, h),
{
    let mut steps: Vec<RasterStep> = Vec::new();
    let x = metrics.char_width.scaled(col);
    let y = metrics.char_height.scaled(row);
    let width = metrics.char_width.scaled(w);
    let height = metrics.char_height.scaled(h);
    match (x, y, width, height) {
        (Some(x), Some(y), Some(width), Some(height)) => {
            steps.push(RasterStep::Picture { x, y, width, height });
        },
        _ => {},
    }
    steps
}

/// Lays out a whole frame as the steps that paint it, in order.
pub fn plan(metrics: &TuiMetrics, frame: &Frame) -> (steps: Vec<RasterStep>)
    ensures
        steps@ == frame_steps(*metrics, frame@),
{
    let mut steps: Vec<RasterStep> = Vec::new();
    let mut i: usize = 0;
    while i < frame.ops.len()
        invariant
            i <= frame.ops@.len(),
            steps@ == frame_steps(*metrics, frame@.subrange(0, i as int)),
        decreases frame.ops@.len() - i,
    {
        let mut next = match &frame.ops[i] {
            DrawOp::Fill { color } => {
                let mut one: Vec<RasterStep> = Vec::new();
                one.push(RasterStep::Clear { color: *color });
                one
            },
            DrawOp::Text { text, col, row, color, bg, scale } => plan_text(
                metrics,
                text.as_str(),
                *col,
                *row,
                *color,
                *bg,
                *scale,
            ),
            DrawOp::Image { col, row, w, h } => plan_picture(metrics, *col, *row, *w, *h),
        };
        proof {
            let done = frame@.subrange(0, i as int);
            let more = frame@.subrange(0, i + 1);
            assert(more.drop_last() =~= done);
            assert(more.last() == frame.ops@[i as int].deep_view());
        }
        steps.append(&mut next);
        i = i + 1;
    }
    assert(frame@.subrange(0, i as int) =~= frame@);
    steps
}

} // verus!
