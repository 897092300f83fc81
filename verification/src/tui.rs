//! The drawing engine. It lays a fixed number of text rows over the
//! framebuffer, derives the size of a character cell from the framebuffer and
//! the font, and turns strings and boxes into glyph runs on that grid.
//!
//! All sizes are kept as exact fractions of a pixel: nothing is rounded
//! before the runs are handed over for rasterising.

use vstd::prelude::*;
use crate::text::{repeat, repeated};

verus! {

/// The number of text rows on the screen, whatever its size in pixels.
pub const GRID_ROWS: usize = 45;

/// A colour with 8 bits to the channel.
#[derive(Debug, Clone, Copy, PartialEq, Eq, Structural)]
pub struct Rgba {
    pub r: u8,
    pub g: u8,
    pub b: u8,
    pub a: u8,
}

impl Rgba {
    /// The colour with the given channels.
    #[verifier::allow_in_spec]
    pub fn new(r: u8, g: u8, b: u8, a: u8) -> Rgba
        returns
            (Rgba { r, g, b, a }),
    {
        Rgba { r, g, b, a }
    }
}

/// A non-negative fraction, `num / den`, of a pixel.
#[derive(Debug, Clone, Copy, PartialEq, Eq, Structural)]
pub struct Ratio {
    pub num: u64,
    pub den: u64,
}

impl Ratio {
    /// Whether the fraction is exactly `a / b`.
    pub open spec fn equals(self, a: int, b: int) -> bool {
        self.den > 0 && b > 0 && self.num * b == a * self.den
    }

    /// Whether the fraction is at most the whole number `n`.
    pub open spec fn at_most(self, n: int) -> bool {
        self.num <= n * self.den
    }
}

/// What the engine reads of a font, in the font's own design units.
#[derive(Debug, Clone, Copy, PartialEq, Eq, Structural)]
pub struct FontUnits {
    /// Horizontal advance of the reference glyph, `M`.
    pub advance: u16,
    /// Line height: ascent minus descent.
    pub height: u16,
}

impl FontUnits {
    /// A font is usable when its line height is not zero.
    pub open spec fn wf(self) -> bool {
        self.height > 0
    }

    /// The font with the given measures, or nothing when its line height is
    /// zero: no text could be scaled against such a font.
    pub fn new(advance: u16, height: u16) -> (font: Option<FontUnits>)
        ensures
            font == if height > 0 {
                Some(FontUnits { advance, height })
            } else {
                None
            },
    {
        if height > 0 {
            Some(FontUnits { advance, height })
        } else {
            None
        }
    }
}

/// The character grid that fits a framebuffer.
#[derive(Debug, Clone, Copy, PartialEq, Eq, Structural)]
pub struct TuiMetrics {
    /// Width of a cell in pixels.
    pub char_width: Ratio,
    /// Height of a cell in pixels.
    pub char_height: Ratio,
    /// Font size in pixels.
    pub font_size: Ratio,
    /// Whole cells that fit side by side.
    pub cols: usize,
    /// Rows of the grid: always `GRID_ROWS`.
    pub rows: usize,
}

/// The whole cells of width `cell` that fit into `width` pixels. A cell of
/// no width fits without end, except into no width at all.
pub open spec fn columns(width: u32, cell: Ratio) -> usize {
    if cell.num == 0 {
        if width == 0 {
            0
        } else {
            usize::MAX
        }
    } else if (width * cell.den) / (cell.num as int) > usize::MAX {
        usize::MAX
    } else {
        ((width * cell.den) / (cell.num as int)) as usize
    }
}

/// The grid for a framebuffer of `width` by `height` pixels and a font: a
/// cell is one `GRID_ROWS`-th of the height tall, the font size is 90 % of
/// that, and a cell is as wide as the reference glyph advances at that size.
pub open spec fn metrics_for(font: FontUnits, width: u32, height: u32) -> TuiMetrics {
    let char_width = Ratio {
        num: (9 * height * font.advance) as u64,
        den: (10 * GRID_ROWS * font.height) as u64,
    };
    TuiMetrics {
        char_width,
        char_height: Ratio { num: height as u64, den: GRID_ROWS as u64 },
        font_size: Ratio { num: (9 * height) as u64, den: (10 * GRID_ROWS) as u64 },
        cols: columns(width, char_width),
        rows: GRID_ROWS,
    }
}

/// One thing to paint, in grid cells.
#[derive(Debug, Clone, PartialEq, Eq)]
pub enum DrawOp {
    /// Cover the whole framebuffer with one colour.
    Fill { color: Rgba },
    /// A run of text that starts at a cell. With a background the cells of
    /// the run are filled first; `scale` multiplies the size of the glyphs
    /// and of their cells.
    Text { text: String, col: usize, row: usize, color: Rgba, bg: Option<Rgba>, scale: usize },
    /// A picture fitted into a rectangle of cells.
    Image { col: usize, row: usize, w: usize, h: usize },
}

/// A `DrawOp` with its text as a sequence of characters.
pub enum DrawOpView {
    Fill { color: Rgba },
    Text { text: Seq<char>, col: usize, row: usize, color: Rgba, bg: Option<Rgba>, scale: usize },
    Image { col: usize, row: usize, w: usize, h: usize },
}

impl DeepView for DrawOp {
    type V = DrawOpView;

    open spec fn deep_view(&self) -> DrawOpView {
        match *self {
            DrawOp::Fill { color } => DrawOpView::Fill { color },
            DrawOp::Text { text, col, row, color, bg, scale } => DrawOpView::Text {
                text: text@,
                col,
                row,
                color,
                bg,
                scale,
            },
            DrawOp::Image { col, row, w, h } => DrawOpView::Image { col, row, w, h },
        }
    }
}

/// A sequence of things to paint, as specifications speak of it.
pub type Picture = Seq<DrawOpView>;

/// What was drawn so far, in the order in which it is to be painted.
pub struct Frame {
    pub ops: Vec<DrawOp>,
}

impl View for Frame {
    type V = Seq<DrawOpView>;

    open spec fn view(&self) -> Seq<DrawOpView> {
        self.ops.deep_view()
    }
}

impl Frame {
    /// A frame with nothing drawn.
    pub fn new() -> (frame: Frame)
        ensures
            frame@ == Seq::<DrawOpView>::empty(),
    {
        Frame { ops: Vec::new() }
    }

    /// Draws `op` on top of what is there.
    pub fn push(&mut self, op: DrawOp)
        ensures
            final(self)@ == old(self)@.push(op.deep_view()),
    {
        self.ops.push(op);
        assert(self@ =~= old(self)@.push(op.deep_view()));
    }

    /// The number of things drawn.
    pub fn len(&self) -> (n: usize)
        ensures
            n == self@.len(),
    {
        self.ops.len()
    }
}

/// A plain run of text: no background, normal size.
pub open spec fn plain_text(text: Seq<char>, col: usize, row: usize, color: Rgba) -> DrawOpView {
    DrawOpView::Text { text, col, row, color, bg: None, scale: 1 }
}

/// The corners and the two horizontal edges of a box that is at least two
/// cells wide and tall.
pub open spec fn box_outline(x: usize, y: usize, w: usize, h: usize, color: Rgba) -> Seq<
    DrawOpView,
> {
    let right = x.saturating_add((w - 1) as usize);
    let bottom = y.saturating_add((h - 1) as usize);
    let edge = repeated("─"@, (w - 2) as nat);
    seq![
        plain_text("┌"@, x, y, color),
        plain_text("┐"@, right, y, color),
        plain_text("└"@, x, bottom, color),
        plain_text("┘"@, right, bottom, color),
        plain_text(edge, x.saturating_add(1), y, color),
        plain_text(edge, x.saturating_add(1), bottom, color),
    ]
}

/// The vertical edges of the first `n` rows below the top edge of a box:
/// for each row its left edge, then its right edge.
pub open spec fn box_sides(x: usize, y: usize, right: usize, color: Rgba, n: nat) -> Seq<
    DrawOpView,
>
    decreases n,
{
    if n == 0 {
        Seq::empty()
    } else {
        box_sides(x, y, right, color, (n - 1) as nat) + seq![
            plain_text("│"@, x, y.saturating_add(n as usize), color),
            plain_text("│"@, right, y.saturating_add(n as usize), color),
        ]
    }
}

/// The border of a box of `w` by `h` cells whose top left cell is at column
/// `x`, row `y`: nothing when the box is less than two cells wide or tall.
pub open spec fn box_ops(x: usize, y: usize, w: usize, h: usize, color: Rgba) -> Seq<DrawOpView> {
    if w < 2 || h < 2 {
        Seq::empty()
    } else {
        box_outline(x, y, w, h, color) + box_sides(
            x,
            y,
            x.saturating_add((w - 1) as usize),
            color,
            (h - 2) as nat,
        )
    }
}

/// The engine: a font, and the drawing primitives over a frame.
pub struct TuiEngine {
    font: FontUnits,
}

impl TuiEngine {
    #[verifier::type_invariant]
    spec fn inv(self) -> bool {
        self.font.wf()
    }

    /// The font the engine measures against.
    pub closed spec fn font(&self) -> FontUnits {
        self.font
    }

    /// An engine over a usable font.
    pub fn new(font: FontUnits) -> (engine: Self)
        requires
            font.wf(),
        ensures
            engine.font() == font,
    {
        Self { font }
    }

    /// The grid for a framebuffer of `width` by `height` pixels.
    pub fn calculate_metrics(&self, width: u32, height: u32) -> (metrics: TuiMetrics)
        ensures
            metrics == metrics_for(self.font(), width, height),
            metrics.rows == GRID_ROWS,
            metrics.char_height.equals(height as int, GRID_ROWS as int),
            metrics.font_size.equals(9 * height, 10 * GRID_ROWS),
            width > 0 && metrics.char_width.at_most(width as int) ==> metrics.cols >= 1,
    {
        proof {
            use_type_invariant(self);
        }
        let h = height as u64;
        let advance = self.font.advance as u64;
        let units = self.font.height as u64;
        assert(9 * h * advance <= 9 * 0xffff_ffff * 0xffff) by (nonlinear_arith)
            requires
                h <= 0xffff_ffff,
                advance <= 0xffff,
        ;
        let num: u64 = 9 * h * advance;
        let den: u64 = 450 * units;
        assert(den == 10 * GRID_ROWS * units) by (nonlinear_arith)
            requires
                den == 450 * units,
                GRID_ROWS == 45,
        ;
        let char_width = Ratio { num, den };
        let cols: usize = if num == 0 {
            if width == 0 {
                0
            } else {
                usize::MAX
            }
        } else {
            assert((width as u64) * den <= 0xffff_ffff * (450 * 0xffff)) by (nonlinear_arith)
                requires
                    width <= 0xffff_ffff,
                    den <= 450 * 0xffff,
            ;
            let q: u64 = ((width as u64) * den) / num;
            if q > usize::MAX as u64 {
                usize::MAX
            } else {
                q as usize
            }
        };
        proof {
            if width > 0 && char_width.at_most(width as int) && num > 0 {
                assert((width * den) / (num as int) >= 1) by (nonlinear_arith)
                    requires
                        num > 0,
                        num <= width * den,
                ;
            }
        }
        TuiMetrics {
            char_width,
            char_height: Ratio { num: h, den: GRID_ROWS as u64 },
            font_size: Ratio { num: 9 * h, den: 10 * (GRID_ROWS as u64) },
            cols,
            rows: GRID_ROWS,
        }
    }

    /// Draws `text` from the cell at column `col`, row `row`, one character
    /// to a cell, over what is there.
    pub fn draw_string(&self, frame: &mut Frame, text: &str, col: usize, row: usize, color: Rgba)
        ensures
            final(frame)@ == old(frame)@.push(plain_text(text@, col, row, color)),
    {
        self.draw_string_ex(frame, text, col, row, color, None, 1);
    }

    /// Draws `text` from the cell at column `col`, row `row`. With a
    /// background colour the cells of the run are filled before the glyphs
    /// are drawn; glyphs and cells are `scale_factor` times their size.
    pub fn draw_string_ex(
        &self,
        frame: &mut Frame,
        text: &str,
        col: usize,
        row: usize,
        color: Rgba,
        bg_color: Option<Rgba>,
        scale_factor: usize,
    )
        ensures
            final(frame)@ == old(frame)@.push(
                DrawOpView::Text { text: text@, col, row, color, bg: bg_color, scale: scale_factor },
            ),
    {
        frame.push(
            DrawOp::Text {
                text: text.to_owned(),
                col,
                row,
                color,
                bg: bg_color,
                scale: scale_factor,
            },
        );
    }

    /// Draws the border of a box of `w` by `h` cells with its top left cell
    /// at column `x`, row `y`. A box less than two cells wide or tall is not
    /// drawn.
    pub fn draw_box(&self, frame: &mut Frame, x: usize, y: usize, w: usize, h: usize, color: Rgba)
        ensures
            final(frame)@ == old(frame)@ + box_ops(x, y, w, h, color),
    {
        if w < 2 || h < 2 {
            assert(frame@ =~= old(frame)@ + box_ops(x, y, w, h, color));
            return ;
        }
        let ghost before = frame@;
        let right = x.saturating_add(w - 1);
        let bottom = y.saturating_add(h - 1);
        self.draw_string(frame, "┌", x, y, color);
        self.draw_string(frame, "┐", right, y, color);
        self.draw_string(frame, "└", x, bottom, color);
        self.draw_string(frame, "┘", right, bottom, color);
        let h_line = repeat("─", w - 2);
        self.draw_string(frame, h_line.as_str(), x.saturating_add(1), y, color);
        self.draw_string(frame, h_line.as_str(), x.saturating_add(1), bottom, color);
        assert(frame@ =~= before + box_outline(x, y, w, h, color));
        let mut i: usize = 1;
        while i < h - 1
            invariant
                h >= 2,
                1 <= i <= h - 1,
                frame@ == before + box_outline(x, y, w, h, color) + box_sides(
                    x,
                    y,
                    right,
                    color,
                    (i - 1) as nat,
                ),
            decreases h - i,
        {
            let ghost so_far = frame@;
            self.draw_string(frame, "│", x, y.saturating_add(i), color);
            self.draw_string(frame, "│", right, y.saturating_add(i), color);
            assert(frame@ =~= before + box_outline(x, y, w, h, color) + box_sides(
                x,
                y,
                right,
                color,
                i as nat,
            ));
            i = i + 1;
        }
        assert(frame@ =~= before + box_ops(x, y, w, h, color));
    }
}

/// On a framebuffer that is at least as tall as the grid has rows, and not
/// empty and at least as wide as one cell, the grid has at least one column,
/// and its cells are exactly one `GRID_ROWS`-th of the framebuffer's height
/// tall.
pub proof fn lemma_metrics_grid(font: FontUnits, width: u32, height: u32)
    requires
        font.wf(),
        height >= GRID_ROWS,
        width > 0,
        metrics_for(font, width, height).char_width.at_most(width as int),
    ensures
        metrics_for(font, width, height).cols >= 1,
        metrics_for(font, width, height).char_height.equals(height as int, GRID_ROWS as int),
        metrics_for(font, width, height).char_height.at_most(height as int),
{
    let m = metrics_for(font, width, height);
    let num = 9 * height * font.advance;
    let den = 10 * GRID_ROWS * font.height;
    assert(0 <= num <= 9 * 0xffff_ffff * 0xffff) by (nonlinear_arith)
        requires
            num == 9 * height * font.advance,
            0 <= height <= 0xffff_ffff,
            0 <= font.advance <= 0xffff,
    ;
    assert(0 < den <= 450 * 0xffff) by (nonlinear_arith)
        requires
            den == 10 * GRID_ROWS * font.height,
            GRID_ROWS == 45,
            0 < font.height <= 0xffff,
    ;
    assert(m.char_width.num == num);
    assert(m.char_width.den == den);
    if num > 0 {
        assert((width * den) / (num as int) >= 1) by (nonlinear_arith)
            requires
                num > 0,
                num <= width * den,
        ;
    }
}

} // verus!
