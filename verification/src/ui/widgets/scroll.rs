//! A scrolling list on the grid: the window that keeps the selection in
//! view, and the drawing of the frame, the rows and the scroll bar.

use vstd::prelude::*;
use crate::models::Game;
use crate::text::{fit, fitted, join};
use crate::tui::{box_ops, plain_text, DrawOpView, Frame, Rgba, TuiEngine};
use crate::ui::widgets::common::Rect;

verus! {

/// Something that a list shows by its name.
pub trait Labeled {
    /// The name under which the item is listed.
    spec fn label(&self) -> Seq<char>;

    /// The name under which the item is listed.
    fn label_text(&self) -> (text: &str)
        ensures
            text@ == self.label(),
    ;
}

impl Labeled for String {
    open spec fn label(&self) -> Seq<char> {
        self@
    }

    fn label_text(&self) -> (text: &str) {
        self.as_str()
    }
}

impl Labeled for Game {
    open spec fn label(&self) -> Seq<char> {
        self.name@
    }

    fn label_text(&self) -> (text: &str) {
        self.name.as_str()
    }
}

/// The rows that a list of height `h` has for its items: all but its
/// border.
pub open spec fn visible_rows(h: usize) -> usize {
    h.saturating_sub(2)
}

/// The scroll offset that keeps `selected` in a window of `visible` rows:
/// a selection above the window becomes its first row, a selection below
/// it its last row, and a selection inside it moves nothing.
pub open spec fn window_after(selected: usize, scroll: usize, visible: usize) -> usize {
    if selected < scroll {
        selected
    } else if selected >= scroll + visible {
        ((selected - visible) as usize).saturating_add(1)
    } else {
        scroll
    }
}

/// The row of the scroll bar's handle: the offset's share of the way it can
/// go, taken of the track's length and rounded to the nearest row, halves
/// upwards.
pub open spec fn handle_row(scroll: usize, visible: usize, total: usize) -> int {
    let span = if total - visible >= 1 {
        total - visible
    } else {
        1
    };
    let travelled = scroll * (visible - 1);
    travelled / span + if 2 * (travelled % span) >= span {
        1int
    } else {
        0int
    }
}

/// How many items a window of `visible` rows shows of `total` items from
/// offset `scroll` on.
pub open spec fn rows_shown(visible: usize, scroll: usize, total: nat) -> nat {
    if scroll >= total {
        0
    } else if total - scroll < visible {
        (total - scroll) as nat
    } else {
        visible as nat
    }
}

/// Row `i` of the window: the item at `scroll + i`, fitted into the list's
/// width less its border and margin; highlighted if it is the selection.
pub open spec fn row_op(
    label: Seq<char>,
    chosen: bool,
    rect: Rect,
    i: usize,
) -> DrawOpView {
    let text = fitted(label, rect.w.saturating_sub(4) as nat);
    let col = rect.x.saturating_add(2);
    let row = rect.y.saturating_add(1).saturating_add(i);
    if chosen {
        DrawOpView::Text {
            text,
            col,
            row,
            color: Rgba::new(255, 255, 255, 255),
            bg: Some(Rgba::new(60, 60, 0, 255)),
            scale: 1,
        }
    } else {
        plain_text(text, col, row, Rgba::new(180, 180, 180, 255))
    }
}

/// The first `n` rows of the window.
pub open spec fn row_ops(
    labels: Seq<Seq<char>>,
    selected: usize,
    scroll: usize,
    rect: Rect,
    n: nat,
) -> Seq<DrawOpView>
    decreases n,
{
    if n == 0 {
        Seq::empty()
    } else {
        row_ops(labels, selected, scroll, rect, (n - 1) as nat).push(
            row_op(labels[scroll + n - 1], scroll + n - 1 == selected, rect, (n - 1) as usize),
        )
    }
}

/// Row `i` of the scroll bar: the handle, or a piece of the track.
pub open spec fn bar_op(rect: Rect, handle: int, i: usize) -> DrawOpView {
    DrawOpView::Text {
        text: if i == handle {
            "█"@
        } else {
            "▒"@
        },
        col: rect.x.saturating_add(rect.w).saturating_sub(1),
        row: rect.y.saturating_add(1).saturating_add(i),
        color: Rgba::new(255, 255, 0, 255),
        bg: Some(Rgba::new(5, 10, 0, 255)),
        scale: 1,
    }
}

/// The first `n` rows of the scroll bar.
pub open spec fn bar_ops(rect: Rect, handle: int, n: nat) -> Seq<DrawOpView>
    decreases n,
{
    if n == 0 {
        Seq::empty()
    } else {
        bar_ops(rect, handle, (n - 1) as nat).push(bar_op(rect, handle, (n - 1) as usize))
    }
}

/// The frame of a list and its title on the top edge.
pub open spec fn list_header(title: Seq<char>, rect: Rect) -> Seq<DrawOpView> {
    box_ops(rect.x, rect.y, rect.w, rect.h, Rgba::new(255, 255, 0, 255)).push(
        DrawOpView::Text {
            text: " "@ + title + " "@,
            col: rect.x.saturating_add(2),
            row: rect.y,
            color: Rgba::new(0, 255, 0, 255),
            bg: Some(Rgba::new(5, 10, 0, 255)),
            scale: 1,
        },
    )
}

/// A whole list: frame and title, the items in the window, and a scroll bar
/// on the right edge when there are more items than rows.
pub open spec fn list_ops(
    title: Seq<char>,
    rect: Rect,
    labels: Seq<Seq<char>>,
    selected: usize,
    scroll: usize,
) -> Seq<DrawOpView> {
    let visible = visible_rows(rect.h);
    list_header(title, rect) + row_ops(
        labels,
        selected,
        scroll,
        rect,
        rows_shown(visible, scroll, labels.len()),
    ) + if labels.len() > visible {
        bar_ops(rect, handle_row(scroll, visible, labels.len() as usize), visible as nat)
    } else {
        Seq::empty()
    }
}

/// The names of `items`, in order.
pub open spec fn labels_of<T: Labeled>(items: Seq<T>) -> Seq<Seq<char>> {
    Seq::new(items.len(), |i: int| items[i].label())
}

/// Moves the window so that it holds the selection.
pub fn keep_in_view(selected: usize, scroll: usize, visible: usize) -> (offset: usize)
    ensures
        offset == window_after(selected, scroll, visible),
{
    if selected < scroll {
        selected
    } else if selected - scroll >= visible {
        (selected - visible).saturating_add(1)
    } else {
        scroll
    }
}

/// Tells whether row `i` of the scroll bar holds the handle.
pub(crate) fn is_handle_row(i: usize, scroll: usize, visible: usize, total: usize) -> (at: bool)
    requires
        visible >= 1,
        total > visible,
    ensures
        at == (i == handle_row(scroll, visible, total)),
{
    let span = (total - visible) as u128;
    let offset = scroll as u128;
    let track = (visible - 1) as u128;
    assert(offset * track <= 0xffff_ffff_ffff_ffff * 0xffff_ffff_ffff_ffff) by (nonlinear_arith)
        requires
            offset <= 0xffff_ffff_ffff_ffff,
            track <= 0xffff_ffff_ffff_ffff,
    ;
    let travelled: u128 = offset * track;
    let whole = travelled / span;
    let rest = travelled % span;
    if 2 * rest >= span {
        whole < usize::MAX as u128 && (i as u128) == whole + 1
    } else {
        (i as u128) == whole
    }
}

/// Draws a list into `rect`.
pub fn draw_list<T: Labeled>(
    frame: &mut Frame,
    engine: &TuiEngine,
    title: &str,
    rect: Rect,
    items: &Vec<T>,
    selected: usize,
    scroll: usize,
)
    ensures
        final(frame)@ == old(frame)@ + list_ops(
            title@,
            rect,
            labels_of(items@),
            selected,
            scroll,
        ),
{
    let ghost before = frame@;
    let ghost labels = labels_of(items@);
    let cyan = Rgba::new(255, 255, 0, 255);
    let bg_main = Rgba::new(5, 10, 0, 255);
    engine.draw_box(frame, rect.x, rect.y, rect.w, rect.h, cyan);
    let opened = join(" ", title);
    let heading = join(opened.as_str(), " ");
    engine.draw_string_ex(
        frame,
        heading.as_str(),
        rect.x.saturating_add(2),
        rect.y,
        Rgba::new(0, 255, 0, 255),
        Some(bg_main),
        1,
    );
    assert(frame@ =~= before + list_header(title@, rect));
    let vis_h = rect.h.saturating_sub(2);
    let total = items.len();
    let text_w = rect.w.saturating_sub(4);
    let mut i: usize = 0;
    while i < vis_h && scroll < total && i < total - scroll
        invariant
            total == items@.len(),
            labels == labels_of(items@),
            vis_h == visible_rows(rect.h),
            text_w == rect.w.saturating_sub(4),
            i <= rows_shown(vis_h, scroll, total as nat),
            frame@ == before + list_header(title@, rect) + row_ops(
                labels,
                selected,
                scroll,
                rect,
                i as nat,
            ),
        decreases vis_h - i,
    {
        let idx = i + scroll;
        let display_text = fit(items[idx].label_text(), text_w);
        let col = rect.x.saturating_add(2);
        let row = rect.y.saturating_add(1).saturating_add(i);
        if idx == selected {
            engine.draw_string_ex(
                frame,
                display_text.as_str(),
                col,
                row,
                Rgba::new(255, 255, 255, 255),
                Some(Rgba::new(60, 60, 0, 255)),
                1,
            );
        } else {
            engine.draw_string(frame, display_text.as_str(), col, row, Rgba::new(180, 180, 180, 255));
        }
        assert(frame@ =~= before + list_header(title@, rect) + row_ops(
            labels,
            selected,
            scroll,
            rect,
            (i + 1) as nat,
        ));
        i = i + 1;
    }
    assert(i == rows_shown(vis_h, scroll, total as nat));
    let ghost rows_done = frame@;
    if total > vis_h {
        let bar_x = rect.x.saturating_add(rect.w).saturating_sub(1);
        let ghost handle = handle_row(scroll, vis_h, total);
        let mut k: usize = 0;
        while k < vis_h
            invariant
                k <= vis_h,
                total > vis_h,
                handle == handle_row(scroll, vis_h, total),
                bar_x == rect.x.saturating_add(rect.w).saturating_sub(1),
                frame@ == rows_done + bar_ops(rect, handle, k as nat),
            decreases vis_h - k,
        {
            let symbol = if is_handle_row(k, scroll, vis_h, total) {
                "█"
            } else {
                "▒"
            };
            engine.draw_string_ex(
                frame,
                symbol,
                bar_x,
                rect.y.saturating_add(1).saturating_add(k),
                Rgba::new(255, 255, 0, 255),
                Some(Rgba::new(5, 10, 0, 255)),
                1,
            );
            assert(frame@ =~= rows_done + bar_ops(rect, handle, (k + 1) as nat));
            k = k + 1;
        }
    }
    assert(frame@ =~= before + list_ops(title@, rect, labels, selected, scroll));
}

} // verus!
