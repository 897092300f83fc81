//! What every region of the screen can do. A widget is told its rectangle,
//! takes commands and answers with events, hears the events of its
//! siblings, and draws itself.
//!
//! Each capability has a model: a specification function that says what the
//! call does to the widget. A container is verified against the models of
//! its children, whatever they are.

use vstd::prelude::*;
use crate::commands::{ControlCommand, UiEvent};
use crate::tui::{Frame, Picture, TuiEngine, TuiMetrics};

verus! {

/// A rectangle of grid cells.
#[derive(Debug, Clone, Copy, PartialEq, Eq, Structural)]
pub struct Rect {
    pub x: usize,
    pub y: usize,
    pub w: usize,
    pub h: usize,
}

/// What every widget can do.
pub trait Widget: Sized {
    /// The widget after it was assigned `rect`.
    spec fn placed(&self, rect: Rect) -> Self;

    /// The event with which the widget answers `cmd`.
    spec fn event_of(&self, cmd: ControlCommand) -> UiEvent;

    /// The widget after it handled `cmd`.
    spec fn after_command(&self, cmd: ControlCommand) -> Self;

    /// The widget after it heard `event`.
    spec fn after_event(&self, event: UiEvent) -> Self;

    /// What the widget draws, in order.
    spec fn picture(&self) -> Picture;

    /// Draws the widget into its rectangle, on top of what the frame holds.
    /// Drawing changes nothing but the frame.
    fn draw(&self, frame: &mut Frame, engine: &TuiEngine, metrics: &TuiMetrics)
        ensures
            final(frame)@ == old(frame)@ + self.picture(),
    ;

    /// Assigns the widget its rectangle.
    fn set_rect(&mut self, x: usize, y: usize, w: usize, h: usize)
        ensures
            *final(self) == old(self).placed(Rect { x, y, w, h }),
    ;

    /// Lets the widget act on a command; the answer is the event that the
    /// other widgets are to hear, or `Nothing`.
    fn handle_command(&mut self, cmd: ControlCommand) -> (event: UiEvent)
        ensures
            event == old(self).event_of(cmd),
            *final(self) == old(self).after_command(cmd),
    ;

    /// Tells the widget of an event that another widget raised.
    fn handle_ui_event(&mut self, event: UiEvent)
        ensures
            *final(self) == old(self).after_event(event),
    ;
}

/// What a widget that holds other widgets can do besides.
pub trait Container: Sized {
    /// The container after its children were given their rectangles.
    spec fn arranged(&self) -> Self;

    /// Derives the children's rectangles from the container's own, and
    /// assigns them.
    fn arrange_widgets(&mut self)
        ensures
            *final(self) == old(self).arranged(),
    ;
}

} // verus!
