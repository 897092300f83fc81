//! Painting a frame: the screen is laid out for the framebuffer's size and
//! drawn from scratch, and the time each frame took is kept for the status
//! bar. A framebuffer without area is not painted at all.

use vstd::prelude::*;
use crate::text::{byte_len, byte_length, repeat, repeated};
use crate::tui::{
    box_ops, metrics_for, plain_text, DrawOp, DrawOpView, Frame, Rgba, TuiEngine, TuiMetrics,
    GRID_ROWS,
};
use crate::ui::widgets::common::{Rect, Widget};
use crate::widgets::{ListWidget, MetadataWidget};

verus! {

/// The text of the status bar's right end for a frame time in nanoseconds
/// and a frame rate, as the standard library formats them: the time as a
/// `Duration` with two decimals, right-aligned in five cells, the rate
/// right-aligned in three.
pub uninterp spec fn stats_text(frame_time: u64, fps: u32) -> Seq<char>;

/// Formats the status with `format!`. Nothing is claimed of the result but
/// that it is the text that the standard library gives for these numbers.
#[verifier::external_body]
fn format_stats(frame_time: u64, fps: u32) -> (text: String)
    ensures
        text@ == stats_text(frame_time, fps),
{
    format!(" [ RENDER: {:>5.2?} | FPS: {:>3} ] ", std::time::Duration::from_nanos(frame_time), fps)
}

/// The colour behind everything.
pub open spec fn background() -> Rgba {
    Rgba::new(5, 10, 0, 255)
}

/// The painter of frames, and the keeper of the frame statistics.
pub struct Renderer {
    pub tui: TuiEngine,
    /// How long the last frame took, in nanoseconds.
    pub last_frame_time: u64,
    /// The frames of the last full second.
    pub current_fps: u32,
    /// The frames since `fps_timer`.
    pub fps_counter: u32,
    /// When the frames were last counted, in milliseconds.
    pub fps_timer: u64,
}

/// Where the detail panel lies beside a list on a grid of `cols` columns:
/// two columns to the right of the list, as tall as the list, and as wide
/// as the grid allows with a margin of three.
pub open spec fn beside(list: Rect, cols: usize) -> MetadataWidget {
    let x = list.x.saturating_add(list.w).saturating_add(2);
    MetadataWidget {
        x,
        y: list.y,
        w: cols.saturating_sub(x.saturating_add(2)).saturating_sub(1),
        h: list.h,
    }
}

/// The outer frame of the screen and its title, centred on the top edge.
pub open spec fn screen_header(cols: usize) -> Seq<DrawOpView> {
    let cyan = Rgba::new(255, 255, 0, 255);
    (seq![DrawOpView::Fill { color: background() }] + box_ops(
        1,
        1,
        cols.saturating_sub(2),
        (GRID_ROWS - 2) as usize,
        cyan,
    )).push(
        plain_text(
            " OSIRIS MISSION TERMINAL "@,
            ((cols / 2) as usize).saturating_sub(byte_len(" OSIRIS MISSION TERMINAL "@) / 2),
            0,
            cyan,
        ),
    )
}

/// The status bar on the last row: a dark strip, the frame statistics at
/// its right end, and the name of the program at its left.
pub open spec fn status_bar(cols: usize, frame_time: u64, fps: u32) -> Seq<DrawOpView> {
    let row = (GRID_ROWS - 1) as usize;
    seq![
        DrawOpView::Text {
            text: repeated(" "@, cols as nat),
            col: 0,
            row,
            color: Rgba::new(0, 0, 0, 0),
            bg: Some(Rgba::new(20, 20, 20, 255)),
            scale: 1,
        },
        plain_text(
            stats_text(frame_time, fps),
            cols.saturating_sub(byte_len(stats_text(frame_time, fps))),
            row,
            Rgba::new(255, 255, 0, 255),
        ),
        plain_text(" OSIRIS MISSION CONTROL"@, 0, row, Rgba::new(0, 255, 0, 255)),
    ]
}

impl Renderer {
    /// The screen with a list and the detail panel beside it: the header,
    /// the list, the details of the selected item if there is one, and the
    /// status bar.
    pub open spec fn screen(&self, cols: usize, list: ListWidget) -> Seq<DrawOpView> {
        screen_header(cols) + list.picture() + (if list.selected_index < list.items@.len() {
            beside(list.rect(), cols).picture(list.items@[list.selected_index as int]@)
        } else {
            Seq::empty()
        }) + status_bar(cols, self.last_frame_time, self.current_fps)
    }

    /// A renderer over `tui` that starts counting frames at `now`.
    pub fn new(tui: TuiEngine, now: u64) -> (renderer: Self)
        ensures
            renderer.tui == tui,
            renderer.last_frame_time == 0,
            renderer.current_fps == 0,
            renderer.fps_counter == 0,
            renderer.fps_timer == now,
    {
        Self { tui, last_frame_time: 0, current_fps: 0, fps_counter: 0, fps_timer: now }
    }

    fn paint_header(&self, frame: &mut Frame, cols: usize)
        ensures
            final(frame)@ == old(frame)@ + screen_header(cols),
    {
        let cyan = Rgba::new(255, 255, 0, 255);
        frame.push(DrawOp::Fill { color: Rgba::new(5, 10, 0, 255) });
        self.tui.draw_box(frame, 1, 1, cols.saturating_sub(2), GRID_ROWS - 2, cyan);
        let title = " OSIRIS MISSION TERMINAL ";
        self.tui.draw_string(
            frame,
            title,
            (cols / 2).saturating_sub(byte_length(title) / 2),
            0,
            cyan,
        );
        assert(frame@ =~= old(frame)@ + screen_header(cols));
    }

    fn paint_status(&self, frame: &mut Frame, cols: usize)
        ensures
            final(frame)@ == old(frame)@ + status_bar(
                cols,
                self.last_frame_time,
                self.current_fps,
            ),
    {
        let bar_y = GRID_ROWS - 1;
        let stats_msg = format_stats(self.last_frame_time, self.current_fps);
        let strip = repeat(" ", cols);
        self.tui.draw_string_ex(
            frame,
            strip.as_str(),
            0,
            bar_y,
            Rgba::new(0, 0, 0, 0),
            Some(Rgba::new(20, 20, 20, 255)),
            1,
        );
        self.tui.draw_string(
            frame,
            stats_msg.as_str(),
            cols.saturating_sub(byte_length(stats_msg.as_str())),
            bar_y,
            Rgba::new(255, 255, 0, 255),
        );
        self.tui.draw_string(frame, " OSIRIS MISSION CONTROL", 0, bar_y, Rgba::new(0, 255, 0, 255));
        assert(frame@ =~= old(frame)@ + status_bar(
            cols,
            self.last_frame_time,
            self.current_fps,
        ));
    }

    /// Paints the screen for a framebuffer of `width` by `height` pixels:
    /// the list where it is, and the detail panel placed beside it. A
    /// framebuffer without area gives no frame, and moves nothing.
    pub fn paint(
        &self,
        width: u32,
        height: u32,
        game_list: &ListWidget,
        metadata: &mut MetadataWidget,
    ) -> (frame: Option<Frame>)
        ensures
            frame is None <==> width == 0 || height == 0,
            frame is None ==> *final(metadata) == *old(metadata),
            frame matches Some(f) ==> {
                let cols = metrics_for(self.tui.font(), width, height).cols;
                &&& *final(metadata) == beside(game_list.rect(), cols)
                &&& f@ == self.screen(cols, *game_list)
            },
    {
        if width == 0 || height == 0 {
            return None;
        }
        let mut frame = Frame::new();
        let metrics = self.tui.calculate_metrics(width, height);
        self.paint_header(&mut frame, metrics.cols);
        game_list.draw(&mut frame, &self.tui, &metrics);

        let meta_x = game_list.x.saturating_add(game_list.w).saturating_add(2);
        let meta_w = metrics.cols.saturating_sub(meta_x.saturating_add(2)).saturating_sub(1);
        metadata.x = meta_x;
        metadata.y = game_list.y;
        metadata.w = meta_w;
        metadata.h = game_list.h;

        if game_list.selected_index < game_list.items.len() {
            metadata.draw(
                &mut frame,
                &self.tui,
                &metrics,
                game_list.items[game_list.selected_index].as_str(),
            );
        }
        self.paint_status(&mut frame, metrics.cols);
        assert(frame@ =~= self.screen(metrics.cols, *game_list));
        Some(frame)
    }

    /// Paints a tree of widgets for a framebuffer of `width` by `height`
    /// pixels: the root is assigned the whole grid and drawn over the
    /// background. A framebuffer without area gives no frame, and leaves
    /// the tree as it is.
    pub fn paint_tree<W: Widget>(&self, width: u32, height: u32, root: &mut W) -> (frame: Option<
        Frame,
    >)
        ensures
            frame is None <==> width == 0 || height == 0,
            frame is None ==> *final(root) == *old(root),
            frame matches Some(f) ==> {
                let cols = metrics_for(self.tui.font(), width, height).cols;
                &&& *final(root) == old(root).placed(Rect { x: 0, y: 0, w: cols, h: GRID_ROWS })
                &&& f@ == seq![DrawOpView::Fill { color: background() }] + final(root).picture()
            },
    {
        if width == 0 || height == 0 {
            return None;
        }
        let metrics = self.tui.calculate_metrics(width, height);
        root.set_rect(0, 0, metrics.cols, GRID_ROWS);
        let mut frame = Frame::new();
        frame.push(DrawOp::Fill { color: Rgba::new(5, 10, 0, 255) });
        root.draw(&mut frame, &self.tui, &metrics);
        assert(frame@ =~= seq![DrawOpView::Fill { color: background() }] + root.picture());
        Some(frame)
    }

    /// The renderer after a frame that took `frame_time` nanoseconds was
    /// presented at `now` milliseconds: the frame is counted, and when a
    /// second has passed since the count began, the count becomes the
    /// frame rate and begins again.
    pub open spec fn after_frame(self, frame_time: u64, now: u64) -> Self {
        if elapsed_ms(now, self.fps_timer) >= 1000 {
            Renderer {
                last_frame_time: frame_time,
                current_fps: self.fps_counter.saturating_add(1),
                fps_counter: 0,
                fps_timer: now,
                ..self
            }
        } else {
            Renderer {
                last_frame_time: frame_time,
                fps_counter: self.fps_counter.saturating_add(1),
                ..self
            }
        }
    }

    /// Records that a frame was presented at `now` milliseconds after it
    /// took `frame_time` nanoseconds to paint.
    pub fn frame_done(&mut self, frame_time: u64, now: u64)
        ensures
            *final(self) == old(self).after_frame(frame_time, now),
    {
        self.last_frame_time = frame_time;
        self.fps_counter = self.fps_counter.saturating_add(1);
        if now.saturating_sub(self.fps_timer) >= 1000 {
            self.current_fps = self.fps_counter;
            self.fps_counter = 0;
            self.fps_timer = now;
        }
    }
}

/// The milliseconds from `since` to `now`; none if `since` is later.
pub open spec fn elapsed_ms(now: u64, since: u64) -> int {
    if now >= since {
        now - since
    } else {
        0
    }
}

} // verus!
