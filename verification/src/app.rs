//! Input dispatch. Keys and gamepad buttons become logical commands; a
//! command that is pressed is sent through the widget tree once, and a
//! direction that stays held is sent again and again after a delay, at a
//! fixed interval, until it is released.
//!
//! Time is a count of milliseconds that the caller reads from a clock that
//! never runs backwards.

use std::rc::Rc;
use vstd::prelude::*;
use crate::commands::{ActionCommand, ControlCommand, NavCommand, NavigationCommand, UiEvent};
use crate::models::RomLibrary;
use crate::ui::widgets::common::Widget;
use crate::ui::widgets::game::ImageSlot;
use crate::ui::widgets::panel::SplitPanelWidget;
use crate::ui::widgets::{CarouselWidget, GameWidget, ListWidget};

verus! {

/// How long a direction is held before it starts to repeat, in
/// milliseconds.
pub const REPEAT_DELAY: u64 = 400;

/// The time between two repeats of a held direction, in milliseconds.
pub const REPEAT_INTERVAL: u64 = 80;

/// The keys that the dispatcher knows, and all others as one.
#[derive(Debug, Clone, Copy, PartialEq, Eq, Structural)]
pub enum Key {
    ArrowUp,
    ArrowDown,
    ArrowLeft,
    ArrowRight,
    Space,
    Escape,
    Other,
}

/// Whether a key went down or came up.
#[derive(Debug, Clone, Copy, PartialEq, Eq, Structural)]
pub enum ElementState {
    Pressed,
    Released,
}

/// The gamepad buttons that the dispatcher knows, and all others as one.
#[derive(Debug, Clone, Copy, PartialEq, Eq, Structural)]
pub enum Button {
    DPadUp,
    DPadDown,
    DPadLeft,
    DPadRight,
    South,
    East,
    Other,
}

/// The timer of one held command.
#[derive(Debug, Clone, Copy, PartialEq, Eq, Structural)]
pub struct CommandState {
    /// When the command was last sent.
    pub last_trigger: u64,
    /// When the command was pressed.
    pub started_at: u64,
    /// Whether the delay has passed.
    pub repeating: bool,
}

/// The time from `since` to `now`; none if `since` is later.
pub open spec fn elapsed(now: u64, since: u64) -> int {
    if now >= since {
        now - since
    } else {
        0
    }
}

impl CommandState {
    /// The timer of a command that was pressed at `now`.
    pub open spec fn pressed_at(now: u64) -> CommandState {
        CommandState { last_trigger: now, started_at: now, repeating: false }
    }

    /// Whether the command repeats at `now`: it did before, or the delay
    /// has passed since it was pressed.
    pub open spec fn repeating_at(self, now: u64) -> bool {
        self.repeating || elapsed(now, self.started_at) >= REPEAT_DELAY
    }

    /// Whether a tick at `now` sends the command again: it repeats, and the
    /// interval has passed since it was last sent.
    pub open spec fn fires_at(self, now: u64) -> bool {
        self.repeating_at(now) && elapsed(now, self.last_trigger) >= REPEAT_INTERVAL
    }

    /// The timer after a tick at `now`.
    pub open spec fn after_tick(self, now: u64) -> CommandState {
        CommandState {
            last_trigger: if self.fires_at(now) {
                now
            } else {
                self.last_trigger
            },
            started_at: self.started_at,
            repeating: self.repeating_at(now),
        }
    }

    /// Starts the timer of a command that is pressed at `now`.
    pub fn new(now: u64) -> (timer: CommandState)
        ensures
            timer == CommandState::pressed_at(now),
    {
        CommandState { last_trigger: now, started_at: now, repeating: false }
    }

    /// Advances the timer to `now` and tells whether the command is due
    /// again.
    pub fn tick(&mut self, now: u64) -> (fired: bool)
        ensures
            fired == old(self).fires_at(now),
            *final(self) == old(self).after_tick(now),
    {
        if !self.repeating && now.saturating_sub(self.started_at) >= REPEAT_DELAY {
            self.repeating = true;
        }
        if self.repeating && now.saturating_sub(self.last_trigger) >= REPEAT_INTERVAL {
            self.last_trigger = now;
            true
        } else {
            false
        }
    }
}

/// The timers of the commands that are held, at most one to a command.
#[derive(Debug, Clone, Copy, PartialEq, Eq, Structural)]
pub struct HeldCommands {
    pub up: Option<CommandState>,
    pub down: Option<CommandState>,
    pub left: Option<CommandState>,
    pub right: Option<CommandState>,
    pub select: Option<CommandState>,
    pub back: Option<CommandState>,
}

impl HeldCommands {
    /// The timer of `cmd`, if `cmd` is held.
    pub open spec fn timer(self, cmd: NavCommand) -> Option<CommandState> {
        match cmd {
            NavCommand::Up => self.up,
            NavCommand::Down => self.down,
            NavCommand::Left => self.left,
            NavCommand::Right => self.right,
            NavCommand::Select => self.select,
            NavCommand::Back => self.back,
        }
    }

    /// The same timers, but for `cmd`, which has `timer` or none.
    pub open spec fn with(self, cmd: NavCommand, timer: Option<CommandState>) -> HeldCommands {
        match cmd {
            NavCommand::Up => HeldCommands { up: timer, ..self },
            NavCommand::Down => HeldCommands { down: timer, ..self },
            NavCommand::Left => HeldCommands { left: timer, ..self },
            NavCommand::Right => HeldCommands { right: timer, ..self },
            NavCommand::Select => HeldCommands { select: timer, ..self },
            NavCommand::Back => HeldCommands { back: timer, ..self },
        }
    }

    /// No command is held.
    pub open spec fn none() -> HeldCommands {
        HeldCommands { up: None, down: None, left: None, right: None, select: None, back: None }
    }

    /// Nothing held.
    pub fn new() -> (held: HeldCommands)
        ensures
            held == HeldCommands::none(),
    {
        HeldCommands { up: None, down: None, left: None, right: None, select: None, back: None }
    }

    /// Looks up the timer of `cmd`.
    pub fn get(&self, cmd: NavCommand) -> (timer: Option<CommandState>)
        ensures
            timer == self.timer(cmd),
    {
        match cmd {
            NavCommand::Up => self.up,
            NavCommand::Down => self.down,
            NavCommand::Left => self.left,
            NavCommand::Right => self.right,
            NavCommand::Select => self.select,
            NavCommand::Back => self.back,
        }
    }

    /// Sets or removes the timer of `cmd`.
    pub fn set(&mut self, cmd: NavCommand, timer: Option<CommandState>)
        ensures
            *final(self) == old(self).with(cmd, timer),
    {
        match cmd {
            NavCommand::Up => {
                self.up = timer;
            },
            NavCommand::Down => {
                self.down = timer;
            },
            NavCommand::Left => {
                self.left = timer;
            },
            NavCommand::Right => {
                self.right = timer;
            },
            NavCommand::Select => {
                self.select = timer;
            },
            NavCommand::Back => {
                self.back = timer;
            },
        }
    }
}

/// The widget `root` after `cmd` went through it: it handled the command,
/// and then heard the event with which it answered.
pub open spec fn dispatched<W: Widget>(root: W, cmd: ControlCommand) -> W {
    root.after_command(cmd).after_event(root.event_of(cmd))
}

/// The state machine between the input sources and the widget tree.
pub struct InputDispatcher<W: Widget> {
    /// The root of the widget tree.
    pub root: W,
    /// The commands that are held, from whatever source.
    pub held: HeldCommands,
    /// Whether something changed since the screen was last painted.
    pub redraw_requested: bool,
}

impl<W: Widget> InputDispatcher<W> {
    /// The dispatcher after `cmd` was pressed at `now`. A command that is
    /// already held, and the idle direction, change nothing; any other
    /// command gets a timer, goes through the tree once, and asks for a
    /// redraw.
    pub open spec fn after_press(self, cmd: ControlCommand, now: u64) -> Self {
        match cmd.flat() {
            Some(flat) if self.held.timer(flat) is None => InputDispatcher {
                root: dispatched(self.root, cmd),
                held: self.held.with(flat, Some(CommandState::pressed_at(now))),
                redraw_requested: true,
            },
            _ => self,
        }
    }

    /// The event that a press of `cmd` raises.
    pub open spec fn press_event(self, cmd: ControlCommand) -> UiEvent {
        match cmd.flat() {
            Some(flat) if self.held.timer(flat) is None => self.root.event_of(cmd),
            _ => UiEvent::Nothing,
        }
    }

    /// The dispatcher after `cmd` was released: its timer is gone.
    pub open spec fn after_release(self, cmd: ControlCommand) -> Self {
        match cmd.flat() {
            Some(flat) => InputDispatcher { held: self.held.with(flat, None), ..self },
            None => self,
        }
    }

    /// Whether a tick at `now` sends the direction `cmd` again.
    pub open spec fn fires(self, cmd: NavCommand, now: u64) -> bool {
        self.held.timer(cmd) matches Some(timer) && timer.fires_at(now)
    }

    /// The dispatcher after the timer of the direction `cmd` was advanced
    /// to `now`.
    pub open spec fn after_tick_of(self, cmd: NavCommand, now: u64) -> Self {
        match self.held.timer(cmd) {
            Some(timer) => InputDispatcher {
                root: if timer.fires_at(now) {
                    dispatched(self.root, cmd.tagged())
                } else {
                    self.root
                },
                held: self.held.with(cmd, Some(timer.after_tick(now))),
                redraw_requested: self.redraw_requested || timer.fires_at(now),
            },
            None => self,
        }
    }

    /// The dispatcher after a tick at `now`: the held directions are
    /// advanced in the order up, down, left, right. Select and back never
    /// repeat.
    pub open spec fn after_tick(self, now: u64) -> Self {
        self.after_tick_of(NavCommand::Up, now).after_tick_of(NavCommand::Down, now).after_tick_of(
            NavCommand::Left,
            now,
        ).after_tick_of(NavCommand::Right, now)
    }

    /// How many commands a tick at `now` sends.
    pub open spec fn fire_count(self, now: u64) -> nat {
        let up: nat = if self.fires(NavCommand::Up, now) { 1 } else { 0 };
        let down: nat = if self.fires(NavCommand::Down, now) { 1 } else { 0 };
        let left: nat = if self.fires(NavCommand::Left, now) { 1 } else { 0 };
        let right: nat = if self.fires(NavCommand::Right, now) { 1 } else { 0 };
        up + down + left + right
    }

    /// A dispatcher over `root`, with nothing held and nothing to redraw.
    pub fn new(root: W) -> (dispatcher: Self)
        ensures
            dispatcher == (InputDispatcher {
                root,
                held: HeldCommands::none(),
                redraw_requested: false,
            }),
    {
        InputDispatcher { root, held: HeldCommands::new(), redraw_requested: false }
    }

    /// Sends `cmd` through the tree: the root handles it, and then hears the
    /// event with which it answered.
    pub fn dispatch(&mut self, cmd: ControlCommand) -> (event: UiEvent)
        ensures
            event == old(self).root.event_of(cmd),
            *final(self) == (InputDispatcher {
                root: dispatched(old(self).root, cmd),
                redraw_requested: true,
                ..*old(self)
            }),
    {
        let event = self.root.handle_command(cmd);
        self.root.handle_ui_event(event);
        self.redraw_requested = true;
        event
    }

    /// A command went down at `now`.
    pub fn press(&mut self, cmd: ControlCommand, now: u64) -> (event: UiEvent)
        ensures
            *final(self) == old(self).after_press(cmd, now),
            event == old(self).press_event(cmd),
    {
        match cmd.to_flat() {
            Some(flat) => {
                if self.held.get(flat).is_none() {
                    self.held.set(flat, Some(CommandState::new(now)));
                    self.dispatch(cmd)
                } else {
                    UiEvent::Nothing
                }
            },
            None => UiEvent::Nothing,
        }
    }

    /// A command came up: it is no longer held, and will not repeat.
    pub fn release(&mut self, cmd: ControlCommand)
        ensures
            *final(self) == old(self).after_release(cmd),
    {
        match cmd.to_flat() {
            Some(flat) => {
                self.held.set(flat, None);
            },
            None => {},
        }
    }

    fn tick_direction(&mut self, cmd: NavCommand, now: u64) -> (fired: bool)
        ensures
            fired == old(self).fires(cmd, now),
            *final(self) == old(self).after_tick_of(cmd, now),
    {
        match self.held.get(cmd) {
            Some(timer) => {
                let mut timer = timer;
                let fired = timer.tick(now);
                self.held.set(cmd, Some(timer));
                if fired {
                    self.dispatch(cmd.to_control());
                }
                fired
            },
            None => false,
        }
    }

    /// An idle tick at `now`: every held direction whose delay has passed
    /// and whose interval is up goes through the tree again. The answer is
    /// the number of commands sent.
    pub fn tick(&mut self, now: u64) -> (sent: usize)
        ensures
            *final(self) == old(self).after_tick(now),
            sent == old(self).fire_count(now),
    {
        let up = self.tick_direction(NavCommand::Up, now);
        let down = self.tick_direction(NavCommand::Down, now);
        let left = self.tick_direction(NavCommand::Left, now);
        let right = self.tick_direction(NavCommand::Right, now);
        let mut sent: usize = 0;
        if up {
            sent = sent + 1;
        }
        if down {
            sent = sent + 1;
        }
        if left {
            sent = sent + 1;
        }
        if right {
            sent = sent + 1;
        }
        sent
    }

    /// Tells whether a redraw was asked for since the last call, and takes
    /// the request back: many changes between two paints make one paint.
    pub fn take_redraw(&mut self) -> (due: bool)
        ensures
            due == old(self).redraw_requested,
            *final(self) == (InputDispatcher { redraw_requested: false, ..*old(self) }),
    {
        let due = self.redraw_requested;
        self.redraw_requested = false;
        due
    }
}

/// The lower part of the screen: the game list beside the detail panel.
pub type MainSplit = SplitPanelWidget<ListWidget, GameWidget>;

/// The whole screen: the carousel above the list and the detail panel.
pub type RootLayout = SplitPanelWidget<CarouselWidget, MainSplit>;

/// The command that a key stands for.
pub open spec fn key_command(key: Key) -> Option<ControlCommand> {
    match key {
        Key::ArrowUp => Some(ControlCommand::Navigation(NavigationCommand::Up)),
        Key::ArrowDown => Some(ControlCommand::Navigation(NavigationCommand::Down)),
        Key::ArrowLeft => Some(ControlCommand::Navigation(NavigationCommand::Left)),
        Key::ArrowRight => Some(ControlCommand::Navigation(NavigationCommand::Right)),
        Key::Space => Some(ControlCommand::Action(ActionCommand::Select)),
        Key::Escape => Some(ControlCommand::Action(ActionCommand::Back)),
        Key::Other => None,
    }
}

/// The command that a gamepad button stands for.
pub open spec fn button_command(btn: Button) -> Option<ControlCommand> {
    match btn {
        Button::DPadUp => Some(ControlCommand::Navigation(NavigationCommand::Up)),
        Button::DPadDown => Some(ControlCommand::Navigation(NavigationCommand::Down)),
        Button::DPadLeft => Some(ControlCommand::Navigation(NavigationCommand::Left)),
        Button::DPadRight => Some(ControlCommand::Navigation(NavigationCommand::Right)),
        Button::South => Some(ControlCommand::Action(ActionCommand::Select)),
        Button::East => Some(ControlCommand::Action(ActionCommand::Back)),
        Button::Other => None,
    }
}

/// Calls `Rc::clone`: another handle to the same library.
#[verifier::external_body]
fn share(library: &Rc<RomLibrary>) -> (shared: Rc<RomLibrary>)
    ensures
        shared == *library,
{
    library.clone()
}

/// The application: the screen of three panes and its input dispatcher.
pub struct OsirisApp {
    pub dispatcher: InputDispatcher<RootLayout>,
}

impl OsirisApp {
    /// The tree of widgets.
    pub open spec fn root_panel(&self) -> RootLayout {
        self.dispatcher.root
    }

    /// The application over `library`: the carousel takes the upper fifth
    /// of the screen; of the rest the list takes 35 percent of the width
    /// and the detail panel what is left. Every widget shows the first
    /// entry, nothing is held, and no widget has a rectangle yet.
    pub fn new(library: RomLibrary) -> (app: Self)
        ensures
            app.dispatcher.held == HeldCommands::none(),
            !app.dispatcher.redraw_requested,
            app.root_panel().split_ratio == 20 && app.root_panel().percentage_mode
                && app.root_panel().is_vertical,
            app.root_panel().right.split_ratio == 35 && app.root_panel().right.percentage_mode
                && !app.root_panel().right.is_vertical,
            app.root_panel().rect().w == 0 && app.root_panel().rect().h == 0,
            *app.root_panel().left.library == library,
            *app.root_panel().right.left.library == library,
            *app.root_panel().right.right.library == library,
            app.root_panel().left.selected_index == 0,
            app.root_panel().right.left.selected_system == 0,
            app.root_panel().right.left.selected_index == 0,
            app.root_panel().right.left.scroll_offset == 0,
            app.root_panel().right.right.selected_system == 0,
            app.root_panel().right.right.selected_game == 0,
            in_sync(app.root_panel()),
    {
        let library = Rc::new(library);
        let carousel = CarouselWidget::new(share(&library));
        let game_list = ListWidget::new(share(&library));
        let metadata = GameWidget::new(library);
        let main_split = SplitPanelWidget::new(game_list, metadata, 35, true, false);
        let root_panel = SplitPanelWidget::new(carousel, main_split, 20, true, true);
        OsirisApp { dispatcher: InputDispatcher::new(root_panel) }
    }

    /// Acts on what an input was mapped to: a command is pressed, and an
    /// input that stands for no command is ignored.
    pub fn handle_control_command(&mut self, command: Option<ControlCommand>, now: u64) -> (event:
        UiEvent)
        ensures
            final(self).dispatcher == (match command {
                Some(cmd) => old(self).dispatcher.after_press(cmd, now),
                None => old(self).dispatcher,
            }),
            event == (match command {
                Some(cmd) => old(self).dispatcher.press_event(cmd),
                None => UiEvent::Nothing,
            }),
    {
        match command {
            Some(cmd) => self.dispatcher.press(cmd, now),
            None => UiEvent::Nothing,
        }
    }

    /// The command of a key that went down; a key that came up, and a key
    /// that stands for nothing, give none.
    pub fn map_key(&self, key: Key, state: ElementState) -> (command: Option<ControlCommand>)
        ensures
            command == if state == ElementState::Released {
                None
            } else {
                key_command(key)
            },
    {
        if state == ElementState::Released {
            return None;
        }
        match key {
            Key::ArrowUp => Some(ControlCommand::Navigation(NavigationCommand::Up)),
            Key::ArrowDown => Some(ControlCommand::Navigation(NavigationCommand::Down)),
            Key::ArrowLeft => Some(ControlCommand::Navigation(NavigationCommand::Left)),
            Key::ArrowRight => Some(ControlCommand::Navigation(NavigationCommand::Right)),
            Key::Space => Some(ControlCommand::Action(ActionCommand::Select)),
            Key::Escape => Some(ControlCommand::Action(ActionCommand::Back)),
            Key::Other => None,
        }
    }

    /// The command of a gamepad button, if it stands for one.
    pub fn map_axis(&self, btn: Button) -> (command: Option<ControlCommand>)
        ensures
            command == button_command(btn),
    {
        match btn {
            Button::DPadUp => Some(ControlCommand::Navigation(NavigationCommand::Up)),
            Button::DPadDown => Some(ControlCommand::Navigation(NavigationCommand::Down)),
            Button::DPadLeft => Some(ControlCommand::Navigation(NavigationCommand::Left)),
            Button::DPadRight => Some(ControlCommand::Navigation(NavigationCommand::Right)),
            Button::South => Some(ControlCommand::Action(ActionCommand::Select)),
            Button::East => Some(ControlCommand::Action(ActionCommand::Back)),
            Button::Other => None,
        }
    }

    /// A key went down or came up at `now`. A repeat that the host made of
    /// a held key is ignored: the dispatcher keeps its own time.
    pub fn window_event(&mut self, key: Key, state: ElementState, repeat: bool, now: u64) -> (event:
        UiEvent)
        ensures
            final(self).dispatcher == (match key_command(key) {
                Some(cmd) if !repeat => match state {
                    ElementState::Pressed => old(self).dispatcher.after_press(cmd, now),
                    ElementState::Released => old(self).dispatcher.after_release(cmd),
                },
                _ => old(self).dispatcher,
            }),
            event == (match key_command(key) {
                Some(cmd) if !repeat && state == ElementState::Pressed => old(
                    self,
                ).dispatcher.press_event(cmd),
                _ => UiEvent::Nothing,
            }),
    {
        if repeat {
            return UiEvent::Nothing;
        }
        match state {
            ElementState::Pressed => {
                let command = self.map_key(key, state);
                self.handle_control_command(command, now)
            },
            ElementState::Released => {
                match self.map_key(key, ElementState::Pressed) {
                    Some(cmd) => {
                        self.dispatcher.release(cmd);
                    },
                    None => {},
                }
                UiEvent::Nothing
            },
        }
    }

    /// A gamepad button went down or came up at `now`. Buttons and keys
    /// hold the same commands: a direction that is held on both is held
    /// once.
    pub fn user_event(&mut self, btn: Button, state: ElementState, now: u64) -> (event: UiEvent)
        ensures
            final(self).dispatcher == (match button_command(btn) {
                Some(cmd) => match state {
                    ElementState::Pressed => old(self).dispatcher.after_press(cmd, now),
                    ElementState::Released => old(self).dispatcher.after_release(cmd),
                },
                None => old(self).dispatcher,
            }),
            event == (match button_command(btn) {
                Some(cmd) if state == ElementState::Pressed => old(self).dispatcher.press_event(
                    cmd,
                ),
                _ => UiEvent::Nothing,
            }),
    {
        let command = self.map_axis(btn);
        match state {
            ElementState::Pressed => self.handle_control_command(command, now),
            ElementState::Released => {
                match command {
                    Some(cmd) => {
                        self.dispatcher.release(cmd);
                    },
                    None => {},
                }
                UiEvent::Nothing
            },
        }
    }

    /// The event loop is about to wait, at `now`: the held directions that
    /// are due repeat. The answer is the number of commands sent.
    pub fn about_to_wait(&mut self, now: u64) -> (sent: usize)
        ensures
            final(self).dispatcher == old(self).dispatcher.after_tick(now),
            sent == old(self).dispatcher.fire_count(now),
    {
        self.dispatcher.tick(now)
    }
}

/// The widget `root` after `cmd` went through it `count` times.
pub open spec fn dispatched_times<W: Widget>(root: W, cmd: ControlCommand, count: nat) -> W
    decreases count,
{
    if count == 0 {
        root
    } else {
        dispatched(dispatched_times(root, cmd, (count - 1) as nat), cmd)
    }
}

/// The dispatcher after ticks at `times`, one after the other.
pub open spec fn ticked<W: Widget>(dispatcher: InputDispatcher<W>, times: Seq<u64>) -> InputDispatcher<
    W,
>
    decreases times.len(),
{
    if times.len() == 0 {
        dispatcher
    } else {
        ticked(dispatcher, times.drop_last()).after_tick(times.last())
    }
}

/// A command that is pressed while nothing is held, and released before the
/// delay has passed, goes through the tree exactly once: the ticks in
/// between, however many, change nothing, and after the release nothing is
/// held.
pub proof fn lemma_press_release_sends_once<W: Widget>(
    dispatcher: InputDispatcher<W>,
    cmd: ControlCommand,
    start: u64,
    times: Seq<u64>,
)
    requires
        dispatcher.held == HeldCommands::none(),
        cmd.flat() is Some,
        forall|i: int| 0 <= i < times.len() ==> times[i] < start + REPEAT_DELAY,
    ensures
        ticked(dispatcher.after_press(cmd, start), times) == dispatcher.after_press(cmd, start),
        ticked(dispatcher.after_press(cmd, start), times).root == dispatched(dispatcher.root, cmd),
        ticked(dispatcher.after_press(cmd, start), times).after_release(cmd).held
            == HeldCommands::none(),
    decreases times.len(),
{
    if times.len() > 0 {
        lemma_press_release_sends_once(dispatcher, cmd, start, times.drop_last());
    }
}

/// A direction that is pressed while nothing is held, and ticked on an even
/// schedule, goes through the tree once for the press and once for every
/// tick: held for the delay and `count - 1` intervals it was sent
/// `1 + count` times.
pub proof fn lemma_held_direction_cadence<W: Widget>(
    dispatcher: InputDispatcher<W>,
    cmd: NavCommand,
    start: u64,
    early: Seq<u64>,
    count: nat,
)
    requires
        dispatcher.held == HeldCommands::none(),
        cmd.tagged().is_direction(),
        forall|i: int| 0 <= i < early.len() ==> early[i] < start + REPEAT_DELAY,
        start + REPEAT_DELAY + count * REPEAT_INTERVAL <= u64::MAX,
    ensures
        ticked(dispatcher.after_press(cmd.tagged(), start), early + cadence(start, count)).root
            == dispatched_times(dispatcher.root, cmd.tagged(), 1 + count),
        ticked(dispatcher.after_press(cmd.tagged(), start), early + cadence(start, count)).held
            == HeldCommands::none().with(
            cmd,
            Some(after_ticks(CommandState::pressed_at(start), early + cadence(start, count))),
        ),
    decreases count,
{
    let pressed = dispatcher.after_press(cmd.tagged(), start);
    let times = early + cadence(start, count);
    if count == 0 {
        assert(times =~= early);
        lemma_press_release_sends_once(dispatcher, cmd.tagged(), start, early);
        lemma_no_repeat_before_delay(start, early);
        assert(dispatched_times(dispatcher.root, cmd.tagged(), 1) == dispatched(
            dispatched_times(dispatcher.root, cmd.tagged(), 0),
            cmd.tagged(),
        ));
    } else {
        let before = early + cadence(start, (count - 1) as nat);
        assert(times.drop_last() =~= before);
        assert(times.last() == start + REPEAT_DELAY + (count - 1) * REPEAT_INTERVAL);
        lemma_held_direction_cadence(dispatcher, cmd, start, early, (count - 1) as nat);
        lemma_repeat_cadence(start, early, (count - 1) as nat);
        lemma_repeat_cadence(start, early, count);
        if count == 1 {
            assert(before =~= early);
            lemma_no_repeat_before_delay(start, early);
        }
    }
}

/// Hearing the same event twice leaves the whole screen as hearing it once
/// does.
pub proof fn lemma_event_twice(root: RootLayout, event: UiEvent)
    ensures
        root.after_event(event).after_event(event) == root.after_event(event),
{
}

/// Whether the three panes show the same thing: the list shows the games of
/// the system that the carousel has selected, and the detail panel shows
/// the game that the list has selected.
pub open spec fn in_sync(root: RootLayout) -> bool {
    &&& root.right.left.selected_system == root.left.selected_index
    &&& root.right.right.selected_system == root.right.left.selected_system
    &&& root.right.right.selected_game == root.right.left.selected_index
}

/// The panes stay in step. They know of each other through events alone,
/// yet whatever command goes through a tree whose panes agree, they agree
/// afterwards.
pub proof fn lemma_dispatch_keeps_sync(root: RootLayout, cmd: ControlCommand)
    requires
        in_sync(root),
    ensures
        in_sync(dispatched(root, cmd)),
{
}

/// Nothing that the dispatcher does puts the panes out of step: not a
/// press, not a release, and not a tick, however many directions repeat at
/// it.
pub proof fn lemma_dispatcher_keeps_sync(
    dispatcher: InputDispatcher<RootLayout>,
    cmd: ControlCommand,
    now: u64,
)
    requires
        in_sync(dispatcher.root),
    ensures
        in_sync(dispatcher.after_press(cmd, now).root),
        in_sync(dispatcher.after_release(cmd).root),
        in_sync(dispatcher.after_tick(now).root),
{
    lemma_dispatch_keeps_sync(dispatcher.root, cmd);
    let up = dispatcher.after_tick_of(NavCommand::Up, now);
    lemma_dispatch_keeps_sync(dispatcher.root, NavCommand::Up.tagged());
    let down = up.after_tick_of(NavCommand::Down, now);
    lemma_dispatch_keeps_sync(up.root, NavCommand::Down.tagged());
    let left = down.after_tick_of(NavCommand::Left, now);
    lemma_dispatch_keeps_sync(down.root, NavCommand::Left.tagged());
    lemma_dispatch_keeps_sync(left.root, NavCommand::Right.tagged());
}

/// A command that changes the system makes the list and the detail panel
/// start over at the first game of the new system, and asks for its
/// picture.
pub proof fn lemma_system_change_resets(root: RootLayout, cmd: ControlCommand, system: usize)
    requires
        root.left.event_of(cmd) == UiEvent::SystemChanged(system),
    ensures
        root.event_of(cmd) == UiEvent::SystemChanged(system),
        dispatched(root, cmd).left.selected_index == system,
        dispatched(root, cmd).right.left.selected_system == system,
        dispatched(root, cmd).right.left.selected_index == 0,
        dispatched(root, cmd).right.left.scroll_offset == 0,
        dispatched(root, cmd).right.right.selected_system == system,
        dispatched(root, cmd).right.right.selected_game == 0,
        dispatched(root, cmd).right.right.image == ImageSlot::Pending,
{
}

/// The timer after ticks at `times`, one after the other.
pub open spec fn after_ticks(timer: CommandState, times: Seq<u64>) -> CommandState
    decreases times.len(),
{
    if times.len() == 0 {
        timer
    } else {
        after_ticks(timer, times.drop_last()).after_tick(times.last())
    }
}

/// How many of the ticks at `times` send the command again.
pub open spec fn repeats(timer: CommandState, times: Seq<u64>) -> nat
    decreases times.len(),
{
    if times.len() == 0 {
        0
    } else {
        let sent: nat = if after_ticks(timer, times.drop_last()).fires_at(times.last()) {
            1
        } else {
            0
        };
        repeats(timer, times.drop_last()) + sent
    }
}

/// The ticks of an even schedule: the first when the delay has passed since
/// `start`, and each further one an interval after the one before.
pub open spec fn cadence(start: u64, count: nat) -> Seq<u64> {
    Seq::new(count, |i: int| (start + REPEAT_DELAY + i * REPEAT_INTERVAL) as u64)
}

/// Whether the ticks come in the order of time.
pub open spec fn in_order(times: Seq<u64>) -> bool {
    forall|i: int, j: int| 0 <= i <= j < times.len() ==> times[i] <= times[j]
}

/// A command that is released before the delay has passed was sent once,
/// when it was pressed, and never again: no tick before the delay sends it,
/// however many there are, and its timer stays as the press left it.
pub proof fn lemma_no_repeat_before_delay(start: u64, times: Seq<u64>)
    requires
        forall|i: int| 0 <= i < times.len() ==> times[i] < start + REPEAT_DELAY,
    ensures
        repeats(CommandState::pressed_at(start), times) == 0,
        after_ticks(CommandState::pressed_at(start), times) == CommandState::pressed_at(start),
    decreases times.len(),
{
    if times.len() > 0 {
        lemma_no_repeat_before_delay(start, times.drop_last());
    }
}

/// On an even schedule every tick sends the command: after any ticks before
/// the delay, `count` ticks of the cadence make `count` repeats, and the
/// last of them is when the command was last sent.
pub proof fn lemma_repeat_cadence(start: u64, early: Seq<u64>, count: nat)
    requires
        forall|i: int| 0 <= i < early.len() ==> early[i] < start + REPEAT_DELAY,
        start + REPEAT_DELAY + count * REPEAT_INTERVAL <= u64::MAX,
    ensures
        repeats(CommandState::pressed_at(start), early + cadence(start, count)) == count,
        count > 0 ==> after_ticks(CommandState::pressed_at(start), early + cadence(start, count))
            == (CommandState {
            last_trigger: (start + REPEAT_DELAY + (count - 1) * REPEAT_INTERVAL) as u64,
            started_at: start,
            repeating: true,
        }),
    decreases count,
{
    let fresh = CommandState::pressed_at(start);
    let times = early + cadence(start, count);
    if count == 0 {
        assert(times =~= early);
        lemma_no_repeat_before_delay(start, early);
    } else {
        let before = early + cadence(start, (count - 1) as nat);
        assert(times.drop_last() =~= before);
        assert(times.last() == start + REPEAT_DELAY + (count - 1) * REPEAT_INTERVAL);
        lemma_repeat_cadence(start, early, (count - 1) as nat);
        if count == 1 {
            assert(before =~= early);
            lemma_no_repeat_before_delay(start, early);
        }
    }
}

/// Whatever the schedule of the ticks, a command that is held for less than
/// the delay and `count` intervals repeats at most `count` times.
pub proof fn lemma_repeats_bounded(start: u64, times: Seq<u64>, count: nat)
    requires
        in_order(times),
        forall|i: int|
            0 <= i < times.len() ==> times[i] < start + REPEAT_DELAY + count * REPEAT_INTERVAL,
    ensures
        repeats(CommandState::pressed_at(start), times) <= count,
{
    lemma_repeats_spaced(start, times);
    let sent = repeats(CommandState::pressed_at(start), times);
    if sent > 0 {
        let last = after_ticks(CommandState::pressed_at(start), times).last_trigger;
        assert(exists|i: int| 0 <= i < times.len() && times[i] == last);
        assert(sent - 1 < count) by (nonlinear_arith)
            requires
                start + REPEAT_DELAY + (sent - 1) * REPEAT_INTERVAL < start + REPEAT_DELAY + count
                    * REPEAT_INTERVAL,
                REPEAT_INTERVAL == 80,
        ;
    }
}

/// Repeats are at least an interval apart, and the first comes no sooner
/// than the delay: after `n` repeats the command was last sent at one of
/// the ticks, and no sooner than the delay and `n - 1` intervals after it
/// was pressed.
pub proof fn lemma_repeats_spaced(start: u64, times: Seq<u64>)
    requires
        in_order(times),
    ensures
        ({
            let timer = after_ticks(CommandState::pressed_at(start), times);
            let sent = repeats(CommandState::pressed_at(start), times);
            &&& timer.started_at == start
            &&& sent == 0 ==> timer.last_trigger == start && !timer.repeating
            &&& sent > 0 ==> timer.last_trigger >= start + REPEAT_DELAY + (sent - 1)
                * REPEAT_INTERVAL
            &&& sent > 0 ==> exists|i: int| 0 <= i < times.len() && times[i] == timer.last_trigger
            &&& sent > 0 ==> timer.repeating
        }),
    decreases times.len(),
{
    if times.len() > 0 {
        let head = times.drop_last();
        assert(in_order(head));
        lemma_repeats_spaced(start, head);
        let fresh = CommandState::pressed_at(start);
        let timer = after_ticks(fresh, head);
        let sent = repeats(fresh, head);
        let now = times.last();
        if timer.fires_at(now) {
            assert(times[times.len() - 1] == now);
            if sent > 0 {
                let i = choose|i: int| 0 <= i < head.len() && head[i] == timer.last_trigger;
                assert(times[i] == head[i]);
                assert(times[i] <= times[times.len() - 1]);
                assert((sent - 1) * REPEAT_INTERVAL + REPEAT_INTERVAL == sent * REPEAT_INTERVAL)
                    by (nonlinear_arith);
            } else {
                assert((1nat - 1) * REPEAT_INTERVAL == 0) by (nonlinear_arith);
            }
        } else {
            if sent > 0 {
                let i = choose|i: int| 0 <= i < head.len() && head[i] == timer.last_trigger;
                assert(times[i] == head[i]);
            }
        }
    }
}

} // verus!
