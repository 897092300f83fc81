//! The split panel: a container of exactly two widgets that divides its
//! rectangle between them, hands a command to the first and, only if that
//! one has nothing to say, to the second, and tells both of every event.
//! It draws nothing of its own.

use vstd::prelude::*;
use crate::commands::{ControlCommand, UiEvent};
use crate::tui::{DrawOpView, Frame, TuiEngine, TuiMetrics};
use crate::ui::widgets::common::{Container, Rect, Widget};

verus! {

/// Where a panel that is `extent` cells long is split: at `ratio` percent
/// of its length, rounded down, or at `ratio` cells.
pub open spec fn split_point(extent: usize, ratio: u32, percentage: bool) -> usize {
    if percentage {
        if (extent * ratio) / 100 > usize::MAX {
            usize::MAX
        } else {
            ((extent * ratio) / 100) as usize
        }
    } else {
        ratio as usize
    }
}

/// The rectangle of the first child: the part of `rect` before the split.
pub open spec fn first_rect(rect: Rect, ratio: u32, percentage: bool, vertical: bool) -> Rect {
    if vertical {
        Rect { x: rect.x, y: rect.y, w: rect.w, h: split_point(rect.h, ratio, percentage) }
    } else {
        Rect { x: rect.x, y: rect.y, w: split_point(rect.w, ratio, percentage), h: rect.h }
    }
}

/// The rectangle of the second child: the part of `rect` from the split on.
pub open spec fn second_rect(rect: Rect, ratio: u32, percentage: bool, vertical: bool) -> Rect {
    if vertical {
        let at = split_point(rect.h, ratio, percentage);
        Rect { x: rect.x, y: rect.y.saturating_add(at), w: rect.w, h: rect.h.saturating_sub(at) }
    } else {
        let at = split_point(rect.w, ratio, percentage);
        Rect { x: rect.x.saturating_add(at), y: rect.y, w: rect.w.saturating_sub(at), h: rect.h }
    }
}

fn split_at(extent: usize, ratio: u32, percentage: bool) -> (at: usize)
    ensures
        at == split_point(extent, ratio, percentage),
{
    if percentage {
        let length = extent as u128;
        let share = ratio as u128;
        assert(length * share <= 0xffff_ffff_ffff_ffff * 0xffff_ffff) by (nonlinear_arith)
            requires
                length <= 0xffff_ffff_ffff_ffff,
                share <= 0xffff_ffff,
        ;
        let at: u128 = (length * share) / 100;
        if at > usize::MAX as u128 {
            usize::MAX
        } else {
            at as usize
        }
    } else {
        ratio as usize
    }
}

/// Two widgets, one above or beside the other.
pub struct SplitPanelWidget<L: Widget, R: Widget> {
    pub left: L,
    pub right: R,
    pub split_ratio: u32,
    pub percentage_mode: bool,
    pub is_vertical: bool,
    pub x: usize,
    pub y: usize,
    pub w: usize,
    pub h: usize,
}

impl<L: Widget, R: Widget> SplitPanelWidget<L, R> {
    /// The rectangle that the panel was assigned.
    pub open spec fn rect(&self) -> Rect {
        Rect { x: self.x, y: self.y, w: self.w, h: self.h }
    }

    /// A panel over two widgets. With `is_vertical` the first child lies
    /// above the second, else to its left; `split_ratio` is the first
    /// child's share in percent with `percentage_mode`, else in cells. The
    /// panel has no rectangle yet, and its children keep theirs.
    pub fn new(left: L, right: R, split_ratio: u32, percentage_mode: bool, is_vertical: bool) -> (panel:
        Self)
        ensures
            panel == (SplitPanelWidget {
                left,
                right,
                split_ratio,
                percentage_mode,
                is_vertical,
                x: 0,
                y: 0,
                w: 0,
                h: 0,
            }),
    {
        let mut panel = Self {
            left,
            right,
            split_ratio,
            percentage_mode,
            is_vertical,
            x: 0,
            y: 0,
            w: 0,
            h: 0,
        };
        panel.arrange_widgets();
        panel
    }
}

impl<L: Widget, R: Widget> Container for SplitPanelWidget<L, R> {
    open spec fn arranged(&self) -> Self {
        if self.w == 0 || self.h == 0 {
            *self
        } else {
            SplitPanelWidget {
                left: self.left.placed(
                    first_rect(self.rect(), self.split_ratio, self.percentage_mode, self.is_vertical),
                ),
                right: self.right.placed(
                    second_rect(
                        self.rect(),
                        self.split_ratio,
                        self.percentage_mode,
                        self.is_vertical,
                    ),
                ),
                ..*self
            }
        }
    }

    fn arrange_widgets(&mut self) {
        if self.w == 0 || self.h == 0 {
            return ;
        }
        if self.is_vertical {
            let at = split_at(self.h, self.split_ratio, self.percentage_mode);
            self.left.set_rect(self.x, self.y, self.w, at);
            self.right.set_rect(self.x, self.y.saturating_add(at), self.w, self.h.saturating_sub(at));
        } else {
            let at = split_at(self.w, self.split_ratio, self.percentage_mode);
            self.left.set_rect(self.x, self.y, at, self.h);
            self.right.set_rect(self.x.saturating_add(at), self.y, self.w.saturating_sub(at), self.h);
        }
    }
}

impl<L: Widget, R: Widget> Widget for SplitPanelWidget<L, R> {
    open spec fn placed(&self, rect: Rect) -> Self {
        (SplitPanelWidget { x: rect.x, y: rect.y, w: rect.w, h: rect.h, ..*self }).arranged()
    }

    open spec fn event_of(&self, cmd: ControlCommand) -> UiEvent {
        if self.left.event_of(cmd) != UiEvent::Nothing {
            self.left.event_of(cmd)
        } else {
            self.right.event_of(cmd)
        }
    }

    open spec fn after_command(&self, cmd: ControlCommand) -> Self {
        if self.left.event_of(cmd) != UiEvent::Nothing {
            SplitPanelWidget { left: self.left.after_command(cmd), ..*self }
        } else {
            SplitPanelWidget {
                left: self.left.after_command(cmd),
                right: self.right.after_command(cmd),
                ..*self
            }
        }
    }

    open spec fn after_event(&self, event: UiEvent) -> Self {
        SplitPanelWidget {
            left: self.left.after_event(event),
            right: self.right.after_event(event),
            ..*self
        }
    }

    open spec fn picture(&self) -> Seq<DrawOpView> {
        self.left.picture() + self.right.picture()
    }

    fn draw(&self, frame: &mut Frame, engine: &TuiEngine, metrics: &TuiMetrics) {
        self.left.draw(frame, engine, metrics);
        self.right.draw(frame, engine, metrics);
        assert(frame@ =~= old(frame)@ + self.picture());
    }

    fn set_rect(&mut self, x: usize, y: usize, w: usize, h: usize) {
        self.x = x;
        self.y = y;
        self.w = w;
        self.h = h;
        self.arrange_widgets();
    }

    /// The first child is asked first. If it answers with an event, that is
    /// the answer, and the second child is not asked and stays as it is;
    /// else the second child's answer is the answer.
    fn handle_command(&mut self, cmd: ControlCommand) -> (event: UiEvent)
        ensures
            final(self).left == old(self).left.after_command(cmd),
            old(self).left.event_of(cmd) != UiEvent::Nothing ==> event == old(self).left.event_of(
                cmd,
            ) && final(self).right == old(self).right,
            old(self).left.event_of(cmd) == UiEvent::Nothing ==> event == old(self).right.event_of(
                cmd,
            ) && final(self).right == old(self).right.after_command(cmd),
    {
        let e1 = self.left.handle_command(cmd);
        if e1 != UiEvent::Nothing {
            return e1;
        }
        self.right.handle_command(cmd)
    }

    /// Both children hear the event, each once, the first child first,
    /// whatever either does with it.
    fn handle_ui_event(&mut self, event: UiEvent)
        ensures
            final(self).left == old(self).left.after_event(event),
            final(self).right == old(self).right.after_event(event),
    {
        self.left.handle_ui_event(event);
        self.right.handle_ui_event(event);
    }
}

/// The two children of a panel that has some area share it without overlap
/// or gap along the split: the second starts where the first ends, and
/// where the split lies inside the panel their lengths add up to the
/// panel's.
pub proof fn lemma_split_covers(rect: Rect, ratio: u32, percentage: bool, vertical: bool)
    requires
        rect.x + rect.w <= usize::MAX,
        rect.y + rect.h <= usize::MAX,
        split_point(if vertical { rect.h } else { rect.w }, ratio, percentage) <= (if vertical {
            rect.h
        } else {
            rect.w
        }),
    ensures
        ({
            let a = first_rect(rect, ratio, percentage, vertical);
            let b = second_rect(rect, ratio, percentage, vertical);
            &&& a.x == rect.x && a.y == rect.y
            &&& vertical ==> a.w == rect.w && b.w == rect.w && b.x == rect.x && b.y == a.y + a.h
                && a.h + b.h == rect.h
            &&& !vertical ==> a.h == rect.h && b.h == rect.h && b.y == rect.y && b.x == a.x + a.w
                && a.w + b.w == rect.w
        }),
{
}

/// A share of at most 100 percent puts the split inside the panel.
pub proof fn lemma_percentage_inside(extent: usize, ratio: u32)
    requires
        ratio <= 100,
    ensures
        split_point(extent, ratio, true) <= extent,
        split_point(extent, ratio, true) == (extent * ratio) / 100,
{
    assert((extent * ratio) / 100 <= extent) by (nonlinear_arith)
        requires
            0 <= ratio <= 100,
            extent >= 0,
    ;
}

} // verus!
