//! A list over items of its own, placed where its maker says.

use vstd::prelude::*;
use vstd::string::StringExecFns;
use crate::commands::NavCommand;
use crate::tui::{DrawOpView, Frame, TuiEngine, TuiMetrics};
use crate::ui::widgets::common::Rect;
use crate::ui::widgets::scroll::{draw_list, keep_in_view, labels_of, list_ops, visible_rows, window_after};

verus! {

/// A list of texts in a rectangle of its own.
pub struct ListWidget {
    pub title: String,
    pub x: usize,
    pub y: usize,
    pub w: usize,
    pub h: usize,
    pub items: Vec<String>,
    pub selected_index: usize,
    pub scroll_offset: usize,
}

impl ListWidget {
    /// The rectangle of the list.
    pub open spec fn rect(&self) -> Rect {
        Rect { x: self.x, y: self.y, w: self.w, h: self.h }
    }

    /// The index that follows from `cmd`: up and down move one item on and
    /// stop at the first and the last item.
    pub open spec fn target(&self, cmd: NavCommand) -> usize {
        match cmd {
            NavCommand::Up => if self.selected_index > 0 {
                (self.selected_index - 1) as usize
            } else {
                self.selected_index
            },
            NavCommand::Down => if self.selected_index + 1 < self.items@.len() {
                (self.selected_index + 1) as usize
            } else {
                self.selected_index
            },
            _ => self.selected_index,
        }
    }

    /// The list after `cmd`. A list without a row for items ignores every
    /// command; else the selection moves, and the window follows it.
    pub open spec fn after_command(&self, cmd: NavCommand) -> Self {
        if visible_rows(self.h) == 0 {
            *self
        } else {
            ListWidget {
                selected_index: self.target(cmd),
                scroll_offset: window_after(
                    self.target(cmd),
                    self.scroll_offset,
                    visible_rows(self.h),
                ),
                ..*self
            }
        }
    }

    /// What the list draws.
    pub open spec fn picture(&self) -> Seq<DrawOpView> {
        list_ops(
            self.title@,
            self.rect(),
            labels_of(self.items@),
            self.selected_index,
            self.scroll_offset,
        )
    }

    /// A list of `items` under `title` in the given rectangle, with its
    /// first item selected.
    pub fn new(title: &str, x: usize, y: usize, w: usize, h: usize, items: Vec<String>) -> (list:
        Self)
        ensures
            list.title@ == title@,
            list.rect() == (Rect { x, y, w, h }),
            list.items == items,
            list.selected_index == 0,
            list.scroll_offset == 0,
    {
        Self {
            title: String::from_str(title),
            x,
            y,
            w,
            h,
            items,
            selected_index: 0,
            scroll_offset: 0,
        }
    }

    /// Moves the selection.
    pub fn handle_command(&mut self, cmd: NavCommand)
        ensures
            *final(self) == old(self).after_command(cmd),
            cmd == NavCommand::Up && old(self).selected_index == 0 ==> final(self).selected_index
                == 0,
            cmd == NavCommand::Down && old(self).selected_index + 1 >= old(self).items@.len()
                ==> final(self).selected_index == old(self).selected_index,
    {
        let vis_h = self.h.saturating_sub(2);
        if vis_h == 0 {
            return ;
        }
        match cmd {
            NavCommand::Up => {
                if self.selected_index > 0 {
                    self.selected_index = self.selected_index - 1;
                }
            },
            NavCommand::Down => {
                if self.selected_index < self.items.len().saturating_sub(1) {
                    self.selected_index = self.selected_index + 1;
                }
            },
            _ => {},
        }
        self.scroll_offset = keep_in_view(self.selected_index, self.scroll_offset, vis_h);
    }

    /// Draws the list on top of what the frame holds.
    pub fn draw(&self, frame: &mut Frame, engine: &TuiEngine, metrics: &TuiMetrics)
        ensures
            final(frame)@ == old(frame)@ + self.picture(),
    {
        draw_list(
            frame,
            engine,
            self.title.as_str(),
            Rect { x: self.x, y: self.y, w: self.w, h: self.h },
            &self.items,
            self.selected_index,
            self.scroll_offset,
        );
    }
}

} // verus!
