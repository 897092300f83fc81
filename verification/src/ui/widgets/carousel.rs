//! The carousel: the systems side by side, the selected one in the middle,
//! wrapping round at both ends.

use std::rc::Rc;
use vstd::prelude::*;
use vstd::arithmetic::div_mod::{lemma_add_mod_noop, lemma_small_mod};
use crate::commands::{ControlCommand, NavigationCommand, UiEvent};
use crate::models::RomLibrary;
use crate::text::{byte_len, byte_length, join};
use crate::tui::{box_ops, plain_text, DrawOpView, Frame, Rgba, TuiEngine, TuiMetrics};
use crate::ui::widgets::common::{Rect, Widget};

verus! {

/// The index after `index` among `count` items, round the end.
pub open spec fn wrap_next(index: int, count: int) -> int {
    (index + 1) % count
}

/// The index before `index` among `count` items, round the start.
pub open spec fn wrap_prev(index: int, count: int) -> int {
    (index + count - 1) % count
}

/// The index that the carousel shows in slot `slot` of five: slot 2 holds
/// the selection, the slots before and after it its neighbours.
pub open spec fn slot_index(selected: int, count: int, slot: int) -> int {
    (selected + count + slot - 2) % count
}

/// The index reached from `index` by `steps` moves to the right.
pub open spec fn after_rights(index: int, count: int, steps: nat) -> int
    decreases steps,
{
    if steps == 0 {
        index
    } else {
        wrap_next(after_rights(index, count, (steps - 1) as nat), count)
    }
}

/// The index reached from `index` by `steps` moves to the left.
pub open spec fn after_lefts(index: int, count: int, steps: nat) -> int
    decreases steps,
{
    if steps == 0 {
        index
    } else {
        wrap_prev(after_lefts(index, count, (steps - 1) as nat), count)
    }
}

fn step_next(index: usize, count: usize) -> (next: usize)
    requires
        count > 0,
    ensures
        next == wrap_next(index as int, count as int),
        next < count,
{
    let r = index % count;
    proof {
        lemma_add_mod_noop(index as int, 1, count as int);
        if r + 1 == count {
            assert((r + 1) % (count as int) == 0) by (nonlinear_arith)
                requires
                    r + 1 == count,
                    count > 0,
            ;
        } else {
            lemma_small_mod((r + 1) as nat, count as nat);
        }
        if count == 1 {
            assert(1int % 1 == 0);
        } else {
            lemma_small_mod(1, count as nat);
        }
    }
    if r + 1 == count {
        0
    } else {
        r + 1
    }
}

fn step_prev(index: usize, count: usize) -> (prev: usize)
    requires
        count > 0,
    ensures
        prev == wrap_prev(index as int, count as int),
        prev < count,
{
    let r = index % count;
    proof {
        lemma_add_mod_noop(index as int, count as int - 1, count as int);
        lemma_small_mod((count - 1) as nat, count as nat);
        if r == 0 {
            lemma_small_mod((count - 1) as nat, count as nat);
        } else {
            assert((r + (count - 1)) % (count as int) == r - 1) by (nonlinear_arith)
                requires
                    0 < r < count,
            ;
        }
    }
    if r == 0 {
        count - 1
    } else {
        r - 1
    }
}

/// The row of systems, with one of them selected.
pub struct CarouselWidget {
    pub library: Rc<RomLibrary>,
    pub selected_index: usize,
    pub x: usize,
    pub y: usize,
    pub w: usize,
    pub h: usize,
}

impl CarouselWidget {
    /// The number of systems to choose from.
    pub open spec fn count(&self) -> nat {
        self.library.systems@.len()
    }

    /// The index that follows from `cmd`: right and left move one system
    /// on, round the ends; anything else, or an empty library, moves
    /// nothing.
    pub open spec fn target(&self, cmd: ControlCommand) -> usize {
        if self.count() == 0 {
            self.selected_index
        } else {
            match cmd {
                ControlCommand::Navigation(NavigationCommand::Right) => wrap_next(
                    self.selected_index as int,
                    self.count() as int,
                ) as usize,
                ControlCommand::Navigation(NavigationCommand::Left) => wrap_prev(
                    self.selected_index as int,
                    self.count() as int,
                ) as usize,
                _ => self.selected_index,
            }
        }
    }

    /// The row of the selected system's name.
    pub open spec fn center_row(&self) -> usize {
        self.y.saturating_add(self.h / 2).saturating_sub(1)
    }

    /// The column about which slot `slot` is centred.
    pub open spec fn slot_center(&self, slot: usize) -> usize {
        self.x.saturating_add((slot * (self.w / 5) + (self.w / 5) / 2) as usize)
    }

    /// What the carousel draws into slot `slot`: the selected system between
    /// brackets, highlighted and at double size, its neighbours plainly and
    /// dimmed one row below.
    pub open spec fn slot_op(&self, slot: usize) -> DrawOpView {
        let name = self.library.systems@[slot_index(
            self.selected_index as int,
            self.count() as int,
            slot as int,
        )].name@;
        if slot == 2 {
            let display = "[ "@ + name + " ]"@;
            DrawOpView::Text {
                text: display,
                col: self.slot_center(slot).saturating_sub(byte_len(display)),
                row: self.center_row(),
                color: Rgba::new(255, 255, 255, 255),
                bg: Some(Rgba::new(0, 60, 60, 255)),
                scale: 2,
            }
        } else {
            plain_text(
                name,
                self.slot_center(slot).saturating_sub(byte_len(name) / 2),
                self.center_row().saturating_add(1),
                Rgba::new(100, 100, 100, 255),
            )
        }
    }

    /// The frame and the title of the carousel.
    pub open spec fn header(&self) -> Seq<DrawOpView> {
        box_ops(self.x, self.y, self.w, self.h, Rgba::new(255, 255, 0, 255)).push(
            DrawOpView::Text {
                text: " EMULATOR SUBSYSTEMS "@,
                col: self.x.saturating_add(2),
                row: self.y,
                color: Rgba::new(255, 255, 0, 255),
                bg: Some(Rgba::new(5, 10, 0, 255)),
                scale: 1,
            },
        )
    }

    /// A carousel over `library`, with its first system selected.
    pub fn new(library: Rc<RomLibrary>) -> (carousel: Self)
        ensures
            carousel.library == library,
            carousel.selected_index == 0,
            carousel.x == 0 && carousel.y == 0 && carousel.w == 0 && carousel.h == 0,
    {
        Self { library, selected_index: 0, x: 0, y: 0, w: 0, h: 0 }
    }

    fn draw_slot(&self, frame: &mut Frame, engine: &TuiEngine, slot: usize, index: usize)
        requires
            slot < 5,
            self.count() > 0,
            index == slot_index(self.selected_index as int, self.count() as int, slot as int),
            index < self.count(),
        ensures
            final(frame)@ == old(frame)@.push(self.slot_op(slot)),
    {
        let slot_w = self.w / 5;
        let center_y = self.y.saturating_add(self.h / 2).saturating_sub(1);
        let name = self.library.systems[index].name.as_str();
        assert(slot * slot_w <= 4 * slot_w) by (nonlinear_arith)
            requires
                slot < 5,
        ;
        let slot_center_x = self.x.saturating_add(slot * slot_w + slot_w / 2);
        if slot == 2 {
            let opened = join("[ ", name);
            let display = join(opened.as_str(), " ]");
            let text_x = slot_center_x.saturating_sub(byte_length(display.as_str()));
            engine.draw_string_ex(
                frame,
                display.as_str(),
                text_x,
                center_y,
                Rgba::new(255, 255, 255, 255),
                Some(Rgba::new(0, 60, 60, 255)),
                2,
            );
        } else {
            let text_x = slot_center_x.saturating_sub(byte_length(name) / 2);
            engine.draw_string(
                frame,
                name,
                text_x,
                center_y.saturating_add(1),
                Rgba::new(100, 100, 100, 255),
            );
        }
    }
}

impl Widget for CarouselWidget {
    open spec fn placed(&self, rect: Rect) -> Self {
        CarouselWidget { x: rect.x, y: rect.y, w: rect.w, h: rect.h, ..*self }
    }

    open spec fn event_of(&self, cmd: ControlCommand) -> UiEvent {
        if self.target(cmd) != self.selected_index {
            UiEvent::SystemChanged(self.target(cmd))
        } else {
            UiEvent::Nothing
        }
    }

    open spec fn after_command(&self, cmd: ControlCommand) -> Self {
        CarouselWidget { selected_index: self.target(cmd), ..*self }
    }

    open spec fn after_event(&self, event: UiEvent) -> Self {
        *self
    }

    open spec fn picture(&self) -> Seq<DrawOpView> {
        if self.count() == 0 {
            self.header()
        } else {
            self.header() + seq![
                self.slot_op(0),
                self.slot_op(1),
                self.slot_op(2),
                self.slot_op(3),
                self.slot_op(4),
            ]
        }
    }

    fn set_rect(&mut self, x: usize, y: usize, w: usize, h: usize) {
        self.x = x;
        self.y = y;
        self.w = w;
        self.h = h;
    }

    fn handle_command(&mut self, cmd: ControlCommand) -> (event: UiEvent) {
        let count = self.library.systems.len();
        if count == 0 {
            return UiEvent::Nothing;
        }
        let old_idx = self.selected_index;
        match cmd {
            ControlCommand::Navigation(NavigationCommand::Right) => {
                self.selected_index = step_next(self.selected_index, count);
            },
            ControlCommand::Navigation(NavigationCommand::Left) => {
                self.selected_index = step_prev(self.selected_index, count);
            },
            _ => {
                return UiEvent::Nothing;
            },
        }
        if old_idx != self.selected_index {
            return UiEvent::SystemChanged(self.selected_index);
        }
        UiEvent::Nothing
    }

    fn draw(&self, frame: &mut Frame, engine: &TuiEngine, metrics: &TuiMetrics) {
        let cyan = Rgba::new(255, 255, 0, 255);
        let bg_main = Rgba::new(5, 10, 0, 255);
        engine.draw_box(frame, self.x, self.y, self.w, self.h, cyan);
        engine.draw_string_ex(
            frame,
            " EMULATOR SUBSYSTEMS ",
            self.x.saturating_add(2),
            self.y,
            cyan,
            Some(bg_main),
            1,
        );
        assert(frame@ =~= old(frame)@ + self.header());
        let count = self.library.systems.len();
        if count == 0 {
            return ;
        }
        let here = self.selected_index % count;
        let before = step_prev(self.selected_index, count);
        let after = step_next(self.selected_index, count);
        let first = step_prev(before, count);
        let last = step_next(after, count);
        proof {
            lemma_slots(self.selected_index as int, count as int);
        }
        self.draw_slot(frame, engine, 0, first);
        self.draw_slot(frame, engine, 1, before);
        self.draw_slot(frame, engine, 2, here);
        self.draw_slot(frame, engine, 3, after);
        self.draw_slot(frame, engine, 4, last);
        assert(frame@ =~= old(frame)@ + self.picture());
    }

    fn handle_ui_event(&mut self, event: UiEvent) {
    }
}

/// The five slots hold the selection and what two steps to either side of
/// it reach.
pub proof fn lemma_slots(selected: int, count: int)
    requires
        selected >= 0,
        count > 0,
    ensures
        slot_index(selected, count, 2) == selected % count,
        slot_index(selected, count, 1) == wrap_prev(selected, count),
        slot_index(selected, count, 3) == wrap_next(selected, count),
        slot_index(selected, count, 0) == wrap_prev(wrap_prev(selected, count), count),
        slot_index(selected, count, 4) == wrap_next(wrap_next(selected, count), count),
{
    lemma_mod_shift(selected, count);
    lemma_mod_shift(selected + 1, count);
    lemma_mod_shift(selected + 2, count);
    lemma_mod_shift(selected - 1, count);
    lemma_mod_shift(selected - 2, count);
    lemma_add_mod_noop(selected + 1, 1, count);
    lemma_add_mod_noop(selected + count - 1, count - 1, count);
    lemma_mod_reduce(1, count);
    lemma_mod_reduce(count - 1, count);
    lemma_mod_reduce(selected + 1, count);
    lemma_mod_reduce(selected + count - 1, count);
    lemma_mod_sum(selected + 1, 1, count);
    lemma_mod_sum(selected + count - 1, count - 1, count);
    lemma_mod_shift(selected + count - 2, count);
}

/// Adding the modulus changes no remainder.
pub proof fn lemma_mod_shift(a: int, n: int)
    requires
        n > 0,
    ensures
        (a + n) % n == a % n,
{
    vstd::arithmetic::div_mod::lemma_mod_add_multiples_vanish(a, n);
}

/// A remainder is its own remainder.
pub proof fn lemma_mod_reduce(a: int, n: int)
    requires
        n > 0,
    ensures
        (a % n) % n == a % n,
        0 <= a % n < n,
{
    vstd::arithmetic::div_mod::lemma_mod_twice(a, n);
    vstd::arithmetic::div_mod::lemma_mod_bound(a, n);
}

/// The remainder of a sum is the remainder of the sum of the first
/// summand's remainder and the second summand.
pub proof fn lemma_mod_sum(a: int, b: int, n: int)
    requires
        n > 0,
    ensures
        (a % n + b) % n == (a + b) % n,
{
    vstd::arithmetic::div_mod::lemma_add_mod_noop(a, b, n);
    vstd::arithmetic::div_mod::lemma_add_mod_noop(a % n, b, n);
    vstd::arithmetic::div_mod::lemma_mod_twice(a, n);
}

/// A step to the right and a step to the left undo each other, in either
/// order.
pub proof fn lemma_right_left_cancel(index: int, count: int)
    requires
        0 <= index < count,
    ensures
        wrap_prev(wrap_next(index, count), count) == index,
        wrap_next(wrap_prev(index, count), count) == index,
{
    lemma_mod_sum(index + 1, count - 1, count);
    lemma_mod_sum(index + count - 1, 1, count);
    lemma_mod_shift(index, count);
    lemma_small_mod(index as nat, count as nat);
}

/// `steps` moves to the right from an index of the carousel reach the index
/// that lies `steps` further on, counted round the end.
pub proof fn lemma_after_rights(index: int, count: int, steps: nat)
    requires
        0 <= index < count,
    ensures
        after_rights(index, count, steps) == (index + steps) % count,
    decreases steps,
{
    if steps == 0 {
        lemma_small_mod(index as nat, count as nat);
    } else {
        lemma_after_rights(index, count, (steps - 1) as nat);
        lemma_mod_sum(index + steps - 1, 1, count);
    }
}

/// `steps` moves to the left from an index of the carousel reach the index
/// that lies `steps` further back, counted round the start.
pub proof fn lemma_after_lefts(index: int, count: int, steps: nat)
    requires
        0 <= index < count,
    ensures
        after_lefts(index, count, steps) == (index - steps) % count,
    decreases steps,
{
    if steps == 0 {
        lemma_small_mod(index as nat, count as nat);
    } else {
        lemma_after_lefts(index, count, (steps - 1) as nat);
        lemma_mod_sum(index - (steps - 1), count - 1, count);
        lemma_mod_shift(index - steps, count);
    }
}

/// The carousel is a cycle: as many moves to the right as there are
/// systems, or as many to the left, end on the index they started from.
pub proof fn lemma_full_turn(index: int, count: int)
    requires
        0 <= index < count,
    ensures
        after_rights(index, count, count as nat) == index,
        after_lefts(index, count, count as nat) == index,
{
    lemma_after_rights(index, count, count as nat);
    lemma_after_lefts(index, count, count as nat);
    lemma_mod_shift(index, count);
    lemma_mod_shift(index - count, count);
    lemma_small_mod(index as nat, count as nat);
}

/// On a carousel that shows one of its systems, right then left, and left
/// then right, end on the system they started from and leave the carousel
/// as it was.
pub proof fn lemma_carousel_round_trip(carousel: CarouselWidget)
    requires
        carousel.selected_index < carousel.count(),
    ensures
        carousel.after_command(ControlCommand::Navigation(NavigationCommand::Right)).after_command(
            ControlCommand::Navigation(NavigationCommand::Left),
        ) == carousel,
        carousel.after_command(ControlCommand::Navigation(NavigationCommand::Left)).after_command(
            ControlCommand::Navigation(NavigationCommand::Right),
        ) == carousel,
{
    let count = carousel.count() as int;
    let index = carousel.selected_index as int;
    let systems = carousel.library.systems;
    assert(systems.len() == systems@.len());
    lemma_right_left_cancel(index, count);
    lemma_mod_reduce(index + 1, count);
    lemma_mod_reduce(index + count - 1, count);
}

/// A carousel of a single system has nowhere to go: neither direction
/// changes it or raises an event.
pub proof fn lemma_carousel_single(carousel: CarouselWidget, cmd: ControlCommand)
    requires
        carousel.count() == 1,
        carousel.selected_index == 0,
    ensures
        carousel.after_command(cmd) == carousel,
        carousel.event_of(cmd) == UiEvent::Nothing,
{
    assert(1int % 1 == 0);
}

} // verus!
