//! The game list: the games of the system that the carousel shows, one to a
//! row, with a selection that stops at both ends.

use std::rc::Rc;
use vstd::prelude::*;
use vstd::string::StringExecFns;
use crate::commands::{ActionCommand, ControlCommand, NavigationCommand, UiEvent};
use crate::models::{Game, RomLibrary};
use crate::tui::{DrawOpView, Frame, TuiEngine, TuiMetrics};
use crate::ui::widgets::common::{Rect, Widget};
use crate::ui::widgets::scroll::{draw_list, keep_in_view, labels_of, list_ops, visible_rows, window_after};

verus! {

/// The list of the games of one system.
pub struct ListWidget {
    pub title: String,
    pub x: usize,
    pub y: usize,
    pub w: usize,
    pub h: usize,
    pub library: Rc<RomLibrary>,
    pub selected_system: usize,
    pub selected_index: usize,
    pub scroll_offset: usize,
}

impl ListWidget {
    /// The games that the list shows: those of the selected system, none
    /// where the library has no such system.
    pub open spec fn games(&self) -> Seq<Game> {
        if self.selected_system < self.library.systems@.len() {
            self.library.systems@[self.selected_system as int].games@
        } else {
            Seq::empty()
        }
    }

    /// The index that follows from `cmd`: up and down move one game on and
    /// stop at the first and the last game.
    pub open spec fn target(&self, cmd: ControlCommand) -> usize {
        match cmd {
            ControlCommand::Navigation(NavigationCommand::Up) => if self.selected_index > 0 {
                (self.selected_index - 1) as usize
            } else {
                self.selected_index
            },
            ControlCommand::Navigation(NavigationCommand::Down) => if self.selected_index + 1
                < self.games().len() {
                (self.selected_index + 1) as usize
            } else {
                self.selected_index
            },
            _ => self.selected_index,
        }
    }

    /// The rectangle that the list was assigned.
    pub open spec fn rect(&self) -> Rect {
        Rect { x: self.x, y: self.y, w: self.w, h: self.h }
    }

    /// A list over `library` that shows the games of its first system, with
    /// the first game selected.
    pub fn new(library: Rc<RomLibrary>) -> (list: Self)
        ensures
            list.library == library,
            list.title@ == "GAME LIST"@,
            list.selected_system == 0,
            list.selected_index == 0,
            list.scroll_offset == 0,
            list.rect() == (Rect { x: 0, y: 0, w: 0, h: 0 }),
    {
        Self {
            title: String::from_str("GAME LIST"),
            x: 0,
            y: 0,
            w: 0,
            h: 0,
            library,
            selected_system: 0,
            selected_index: 0,
            scroll_offset: 0,
        }
    }
}

impl Widget for ListWidget {
    open spec fn placed(&self, rect: Rect) -> Self {
        ListWidget { x: rect.x, y: rect.y, w: rect.w, h: rect.h, ..*self }
    }

    open spec fn event_of(&self, cmd: ControlCommand) -> UiEvent {
        if cmd == ControlCommand::Action(ActionCommand::Select) {
            if self.selected_index < self.games().len() {
                UiEvent::LaunchGame(self.selected_system, self.selected_index)
            } else {
                UiEvent::Nothing
            }
        } else if self.target(cmd) != self.selected_index {
            UiEvent::GameChanged(self.target(cmd))
        } else {
            UiEvent::Nothing
        }
    }

    open spec fn after_command(&self, cmd: ControlCommand) -> Self {
        if self.target(cmd) != self.selected_index {
            ListWidget {
                selected_index: self.target(cmd),
                scroll_offset: window_after(
                    self.target(cmd),
                    self.scroll_offset,
                    visible_rows(self.h),
                ),
                ..*self
            }
        } else {
            *self
        }
    }

    open spec fn after_event(&self, event: UiEvent) -> Self {
        match event {
            UiEvent::SystemChanged(system) => ListWidget {
                selected_system: system,
                selected_index: 0,
                scroll_offset: 0,
                ..*self
            },
            _ => *self,
        }
    }

    open spec fn picture(&self) -> Seq<DrawOpView> {
        list_ops(
            self.title@,
            self.rect(),
            labels_of(self.games()),
            self.selected_index,
            self.scroll_offset,
        )
    }

    fn handle_command(&mut self, cmd: ControlCommand) -> (event: UiEvent)
        ensures
            cmd == ControlCommand::Navigation(NavigationCommand::Up) && old(self).selected_index
                == 0 ==> event == UiEvent::Nothing && *final(self) == *old(self),
            cmd == ControlCommand::Navigation(NavigationCommand::Down) && old(self).selected_index
                + 1 >= old(self).games().len() ==> event == UiEvent::Nothing && *final(self)
                == *old(self),
    {
        let old_idx = self.selected_index;
        let total = self.library.games_in(self.selected_system);
        match cmd {
            ControlCommand::Navigation(NavigationCommand::Up) => {
                if self.selected_index > 0 {
                    self.selected_index = self.selected_index - 1;
                } else {
                    return UiEvent::Nothing;
                }
            },
            ControlCommand::Navigation(NavigationCommand::Down) => {
                if self.selected_index < total.saturating_sub(1) {
                    self.selected_index = self.selected_index + 1;
                } else {
                    return UiEvent::Nothing;
                }
            },
            ControlCommand::Action(ActionCommand::Select) => {
                if self.selected_index < total {
                    return UiEvent::LaunchGame(self.selected_system, self.selected_index);
                }
            },
            _ => {
                return UiEvent::Nothing;
            },
        }
        if old_idx != self.selected_index {
            let vis_h = self.h.saturating_sub(2);
            self.scroll_offset = keep_in_view(self.selected_index, self.scroll_offset, vis_h);
            return UiEvent::GameChanged(self.selected_index);
        }
        UiEvent::Nothing
    }

    fn draw(&self, frame: &mut Frame, engine: &TuiEngine, metrics: &TuiMetrics) {
        let rect = Rect { x: self.x, y: self.y, w: self.w, h: self.h };
        if self.selected_system < self.library.systems.len() {
            draw_list(
                frame,
                engine,
                self.title.as_str(),
                rect,
                &self.library.systems[self.selected_system].games,
                self.selected_index,
                self.scroll_offset,
            );
        } else {
            let none: Vec<Game> = Vec::new();
            draw_list(
                frame,
                engine,
                self.title.as_str(),
                rect,
                &none,
                self.selected_index,
                self.scroll_offset,
            );
        }
    }

    fn set_rect(&mut self, x: usize, y: usize, w: usize, h: usize) {
        self.x = x;
        self.y = y;
        self.w = w;
        self.h = h;
    }

    fn handle_ui_event(&mut self, event: UiEvent) {
        match event {
            UiEvent::SystemChanged(system_idx) => {
                self.selected_system = system_idx;
                self.selected_index = 0;
                self.scroll_offset = 0;
            },
            _ => {},
        }
    }
}

/// The list is clamped, never cyclic: up on the first game and down on the
/// last game, or on an empty list, change nothing and raise no event.
pub proof fn lemma_list_clamped(list: ListWidget)
    ensures
        list.selected_index == 0 ==> list.after_command(
            ControlCommand::Navigation(NavigationCommand::Up),
        ) == list && list.event_of(ControlCommand::Navigation(NavigationCommand::Up))
            == UiEvent::Nothing,
        list.selected_index + 1 >= list.games().len() ==> list.after_command(
            ControlCommand::Navigation(NavigationCommand::Down),
        ) == list && list.event_of(ControlCommand::Navigation(NavigationCommand::Down))
            == UiEvent::Nothing,
{
}

/// A move from a game of the list changes the index by exactly one, stays
/// inside the list and says so, and the window then holds the selection
/// whenever it has a row at all.
pub proof fn lemma_list_moves(list: ListWidget, cmd: ControlCommand)
    requires
        list.selected_index < list.games().len(),
        list.target(cmd) != list.selected_index,
    ensures
        list.event_of(cmd) == UiEvent::GameChanged(list.target(cmd)),
        list.target(cmd) == list.selected_index + 1 || list.target(cmd) + 1 == list.selected_index,
        list.target(cmd) < list.games().len(),
        visible_rows(list.h) >= 1 ==> list.after_command(cmd).scroll_offset <= list.target(cmd)
            < list.after_command(cmd).scroll_offset + visible_rows(list.h),
{
    let games = list.library.systems@[list.selected_system as int].games;
    assert(games.len() == games@.len());
}

/// Hearing the same event twice leaves the list as hearing it once does.
pub proof fn lemma_list_event_twice(list: ListWidget, event: UiEvent)
    ensures
        list.after_event(event).after_event(event) == list.after_event(event),
{
}

} // verus!
