use std::cell::RefCell;
use std::rc::Rc;

use osiris::app::{
    Button, CommandState, ElementState, HeldCommands, InputDispatcher, Key, OsirisApp,
    REPEAT_DELAY, REPEAT_INTERVAL,
};
use osiris::commands::{ActionCommand, ControlCommand, NavCommand, NavigationCommand, UiEvent};
use osiris::models::{Game, RomLibrary, System};
use osiris::tui::{Frame, Picture, TuiEngine, TuiMetrics};
use osiris::ui::widgets::common::{Rect, Widget};
use osiris::ui::widgets::game::ImageSlot;

/// A root widget that writes down the commands and events it gets.
struct Recorder {
    answer: UiEvent,
    log: Rc<RefCell<Vec<String>>>,
}

impl Widget for Recorder {
    // The models are for the verifier: nothing calls them when the program runs.
    fn placed(&self, _rect: Rect) -> Self {
        unreachable!()
    }

    fn event_of(&self, _cmd: ControlCommand) -> UiEvent {
        unreachable!()
    }

    fn after_command(&self, _cmd: ControlCommand) -> Self {
        unreachable!()
    }

    fn after_event(&self, _event: UiEvent) -> Self {
        unreachable!()
    }

    fn picture(&self) -> Picture {
        unreachable!()
    }

    fn draw(&self, _frame: &mut Frame, _engine: &TuiEngine, _metrics: &TuiMetrics) {}

    fn set_rect(&mut self, _x: usize, _y: usize, _w: usize, _h: usize) {}

    fn handle_command(&mut self, cmd: ControlCommand) -> UiEvent {
        self.log.borrow_mut().push(format!("command:{:?}", cmd));
        self.answer
    }

    fn handle_ui_event(&mut self, event: UiEvent) {
        self.log.borrow_mut().push(format!("event:{:?}", event));
    }
}

fn recorder(answer: UiEvent) -> (InputDispatcher<Recorder>, Rc<RefCell<Vec<String>>>) {
    let log = Rc::new(RefCell::new(Vec::new()));
    (InputDispatcher::new(Recorder { answer, log: log.clone() }), log)
}

fn commands(log: &Rc<RefCell<Vec<String>>>) -> usize {
    log.borrow().iter().filter(|line| line.starts_with("command:")).count()
}

fn down() -> ControlCommand {
    ControlCommand::Navigation(NavigationCommand::Down)
}

fn up() -> ControlCommand {
    ControlCommand::Navigation(NavigationCommand::Up)
}

fn select() -> ControlCommand {
    ControlCommand::Action(ActionCommand::Select)
}

#[test]
fn the_constants_are_400_and_80_milliseconds() {
    assert_eq!(REPEAT_DELAY, 400);
    assert_eq!(REPEAT_INTERVAL, 80);
}

#[test]
fn a_press_dispatches_once_and_broadcasts_the_answer() {
    let (mut dispatcher, log) = recorder(UiEvent::GameChanged(3));
    assert_eq!(dispatcher.press(down(), 1000), UiEvent::GameChanged(3));
    assert_eq!(*log.borrow(), vec!["command:Navigation(Down)", "event:GameChanged(3)"]);
    assert_eq!(
        dispatcher.held.down,
        Some(CommandState { last_trigger: 1000, started_at: 1000, repeating: false })
    );
    assert!(dispatcher.redraw_requested);
}

#[test]
fn a_silent_answer_is_broadcast_too() {
    let (mut dispatcher, log) = recorder(UiEvent::Nothing);
    assert_eq!(dispatcher.press(down(), 0), UiEvent::Nothing);
    assert_eq!(*log.borrow(), vec!["command:Navigation(Down)", "event:Nothing"]);
}

#[test]
fn a_release_before_the_delay_means_one_dispatch() {
    let (mut dispatcher, log) = recorder(UiEvent::Nothing);
    dispatcher.press(down(), 5000);
    let mut sent = 0;
    for now in (5000..5400).step_by(7) {
        sent += dispatcher.tick(now);
    }
    sent += dispatcher.tick(5399);
    dispatcher.release(down());
    for now in 5400..6000 {
        sent += dispatcher.tick(now);
    }
    assert_eq!(sent, 0);
    assert_eq!(commands(&log), 1);
    assert_eq!(dispatcher.held, HeldCommands::new());
}

#[test]
fn holding_for_the_delay_and_three_intervals_makes_four_dispatches() {
    let (mut dispatcher, log) = recorder(UiEvent::Nothing);
    dispatcher.press(down(), 0);
    let mut sent = 0;
    // a tick every millisecond, released when DELAY + 3 * INTERVAL have passed
    for now in 1..REPEAT_DELAY + 3 * REPEAT_INTERVAL {
        sent += dispatcher.tick(now);
    }
    dispatcher.release(down());
    assert_eq!(sent, 3);
    assert_eq!(commands(&log), 4);
}

#[test]
fn one_more_tick_is_the_slack() {
    let (mut dispatcher, log) = recorder(UiEvent::Nothing);
    dispatcher.press(down(), 0);
    let mut sent = 0;
    for now in 1..=REPEAT_DELAY + 3 * REPEAT_INTERVAL {
        sent += dispatcher.tick(now);
    }
    assert_eq!(sent, 4);
    assert_eq!(commands(&log), 5);
}

#[test]
fn repeats_come_at_the_delay_and_then_every_interval() {
    let (mut dispatcher, _log) = recorder(UiEvent::Nothing);
    dispatcher.press(up(), 100);
    let mut fired = Vec::new();
    for now in 100..900 {
        if dispatcher.tick(now) == 1 {
            fired.push(now);
        }
    }
    assert_eq!(fired, vec![500, 580, 660, 740, 820]);
    assert_eq!(
        dispatcher.held.up,
        Some(CommandState { last_trigger: 820, started_at: 100, repeating: true })
    );
}

#[test]
fn coarse_ticks_space_the_repeats_from_the_tick_that_fired() {
    let (mut dispatcher, _log) = recorder(UiEvent::Nothing);
    dispatcher.press(up(), 0);
    let mut fired = Vec::new();
    for now in (0..1000).step_by(150) {
        if dispatcher.tick(now) == 1 {
            fired.push(now);
        }
    }
    assert_eq!(fired, vec![450, 600, 750, 900]);
}

#[test]
fn select_and_back_never_repeat() {
    let (mut dispatcher, log) = recorder(UiEvent::LaunchGame(0, 0));
    dispatcher.press(select(), 0);
    dispatcher.press(ControlCommand::Action(ActionCommand::Back), 0);
    let mut sent = 0;
    for now in 0..3000 {
        sent += dispatcher.tick(now);
    }
    assert_eq!(sent, 0);
    assert_eq!(commands(&log), 2);
    assert!(dispatcher.held.select.is_some());
    assert!(dispatcher.held.back.is_some());
}

#[test]
fn a_command_held_twice_is_held_once() {
    let (mut dispatcher, log) = recorder(UiEvent::GameChanged(1));
    assert_eq!(dispatcher.press(down(), 0), UiEvent::GameChanged(1));
    // the same direction from the other source, a little later
    assert_eq!(dispatcher.press(down(), 50), UiEvent::Nothing);
    assert_eq!(commands(&log), 1);
    assert_eq!(
        dispatcher.held.down,
        Some(CommandState { last_trigger: 0, started_at: 0, repeating: false })
    );
    let mut sent = 0;
    for now in 0..=400 {
        sent += dispatcher.tick(now);
    }
    assert_eq!(sent, 1);
}

#[test]
fn a_released_command_does_not_fire_again() {
    let (mut dispatcher, log) = recorder(UiEvent::Nothing);
    dispatcher.press(down(), 0);
    assert_eq!(dispatcher.tick(400), 1);
    assert_eq!(dispatcher.tick(480), 1);
    dispatcher.release(down());
    assert_eq!(dispatcher.tick(560), 0);
    assert_eq!(dispatcher.tick(5000), 0);
    assert_eq!(commands(&log), 3);
    // pressed again, it starts afresh
    dispatcher.press(down(), 6000);
    assert_eq!(dispatcher.tick(6399), 0);
    assert_eq!(dispatcher.tick(6400), 1);
}

#[test]
fn two_held_directions_repeat_side_by_side() {
    let (mut dispatcher, log) = recorder(UiEvent::Nothing);
    dispatcher.press(down(), 0);
    dispatcher.press(ControlCommand::Navigation(NavigationCommand::Left), 40);
    assert_eq!(dispatcher.tick(400), 1);
    assert_eq!(dispatcher.tick(440), 1);
    assert_eq!(dispatcher.tick(480), 1);
    assert_eq!(dispatcher.tick(520), 1);
    // both are due: up, down, left, right is the order
    log.borrow_mut().clear();
    assert_eq!(dispatcher.tick(1000), 2);
    assert_eq!(
        *log.borrow(),
        vec![
            "command:Navigation(Down)",
            "event:Nothing",
            "command:Navigation(Left)",
            "event:Nothing",
        ]
    );
}

#[test]
fn the_idle_direction_is_never_held() {
    let (mut dispatcher, log) = recorder(UiEvent::GameChanged(1));
    let idle = ControlCommand::Navigation(NavigationCommand::Idle);
    assert_eq!(dispatcher.press(idle, 0), UiEvent::Nothing);
    dispatcher.release(idle);
    assert!(log.borrow().is_empty());
    assert_eq!(dispatcher.held, HeldCommands::new());
    assert!(!dispatcher.redraw_requested);
}

#[test]
fn a_clock_that_stands_still_fires_nothing() {
    let (mut dispatcher, _log) = recorder(UiEvent::Nothing);
    dispatcher.press(down(), 1000);
    // a tick from before the press counts as no time passed
    assert_eq!(dispatcher.tick(10), 0);
    assert_eq!(dispatcher.tick(1000), 0);
}

#[test]
fn many_changes_make_one_redraw() {
    let (mut dispatcher, _log) = recorder(UiEvent::Nothing);
    assert!(!dispatcher.take_redraw());
    dispatcher.press(down(), 0);
    dispatcher.press(up(), 1);
    dispatcher.tick(500);
    assert!(dispatcher.take_redraw());
    assert!(!dispatcher.take_redraw());
    // a tick that sends nothing asks for nothing
    dispatcher.tick(501);
    assert!(!dispatcher.take_redraw());
}

#[test]
fn held_commands_are_kept_by_command() {
    let mut held = HeldCommands::new();
    let timer = CommandState::new(7);
    held.set(NavCommand::Left, Some(timer));
    assert_eq!(held.get(NavCommand::Left), Some(timer));
    assert_eq!(held.get(NavCommand::Right), None);
    held.set(NavCommand::Left, None);
    assert_eq!(held, HeldCommands::new());
}

#[test]
fn a_timer_fires_at_the_delay() {
    let mut timer = CommandState::new(0);
    assert!(!timer.tick(399));
    assert_eq!(timer, CommandState { last_trigger: 0, started_at: 0, repeating: false });
    assert!(timer.tick(400));
    assert_eq!(timer, CommandState { last_trigger: 400, started_at: 0, repeating: true });
    assert!(!timer.tick(479));
    assert!(timer.tick(480));
}

fn game(id: &str, name: &str) -> Game {
    Game {
        id: id.to_string(),
        name: name.to_string(),
        path: format!("roms/arcade/{}.zip", id),
        year: "1980".to_string(),
        manufacturer: "Namco".to_string(),
        players: "1".to_string(),
    }
}

fn two_systems() -> RomLibrary {
    let mut library = RomLibrary::new();
    library.systems.push(System {
        name: "ARCADE".to_string(),
        games: vec![game("pacman", "Pac-Man"), game("galaga", "Galaga")],
    });
    library.systems.push(System { name: "SNES".to_string(), games: Vec::new() });
    library
}

#[test]
fn a_new_application_shows_the_first_entries() {
    let app = OsirisApp::new(two_systems());
    let root = &app.dispatcher.root;
    assert_eq!((root.split_ratio, root.percentage_mode, root.is_vertical), (20, true, true));
    assert_eq!(
        (root.right.split_ratio, root.right.percentage_mode, root.right.is_vertical),
        (35, true, false)
    );
    assert_eq!(root.left.selected_index, 0);
    assert_eq!(root.left.library.systems.len(), 2);
    assert_eq!(root.right.left.library.systems[0].games[1].name, "Galaga");
    assert_eq!(root.right.right.library.systems[1].name, "SNES");
    assert_eq!(root.right.right.image, ImageSlot::Absent);
    assert_eq!(app.dispatcher.held, HeldCommands::new());
}

#[test]
fn carousel_list_and_detail_follow_each_other() {
    let mut app = OsirisApp::new(two_systems());
    let right = Some(ControlCommand::Navigation(NavigationCommand::Right));
    let left = Some(ControlCommand::Navigation(NavigationCommand::Left));
    let down = Some(ControlCommand::Navigation(NavigationCommand::Down));
    let select = Some(ControlCommand::Action(ActionCommand::Select));

    // right: the carousel moves on to SNES, the list starts over its games
    assert_eq!(app.handle_control_command(right, 0), UiEvent::SystemChanged(1));
    app.dispatcher.release(right.unwrap());
    assert_eq!(app.dispatcher.root.left.selected_index, 1);
    assert_eq!(app.dispatcher.root.right.left.selected_system, 1);
    assert_eq!(app.dispatcher.root.right.left.selected_index, 0);
    assert_eq!(app.dispatcher.root.right.right.selected_system, 1);

    // down on the empty list: nothing
    assert_eq!(app.handle_control_command(down, 10), UiEvent::Nothing);
    app.dispatcher.release(down.unwrap());
    assert_eq!(app.dispatcher.root.right.left.selected_index, 0);

    // left: back to ARCADE, the list shows Pac-Man again
    assert_eq!(app.handle_control_command(left, 20), UiEvent::SystemChanged(0));
    app.dispatcher.release(left.unwrap());
    assert_eq!(app.dispatcher.root.left.selected_index, 0);
    assert_eq!(app.dispatcher.root.right.left.selected_system, 0);
    assert_eq!(app.dispatcher.root.right.left.selected_index, 0);

    // down: Galaga
    assert_eq!(app.handle_control_command(down, 30), UiEvent::GameChanged(1));
    app.dispatcher.release(down.unwrap());
    assert_eq!(app.dispatcher.root.right.left.selected_index, 1);
    assert_eq!(app.dispatcher.root.right.right.selected_game, 1);
    assert_eq!(app.dispatcher.root.right.right.image, ImageSlot::Pending);

    // select: launch
    assert_eq!(app.handle_control_command(select, 40), UiEvent::LaunchGame(0, 1));
}

#[test]
fn keys_map_to_commands_when_pressed() {
    let app = OsirisApp::new(RomLibrary::new());
    let pressed = ElementState::Pressed;
    assert_eq!(app.map_key(Key::ArrowUp, pressed), Some(up()));
    assert_eq!(app.map_key(Key::ArrowDown, pressed), Some(down()));
    assert_eq!(
        app.map_key(Key::ArrowLeft, pressed),
        Some(ControlCommand::Navigation(NavigationCommand::Left))
    );
    assert_eq!(
        app.map_key(Key::ArrowRight, pressed),
        Some(ControlCommand::Navigation(NavigationCommand::Right))
    );
    assert_eq!(app.map_key(Key::Space, pressed), Some(select()));
    assert_eq!(app.map_key(Key::Escape, pressed), Some(ControlCommand::Action(ActionCommand::Back)));
    assert_eq!(app.map_key(Key::Other, pressed), None);
    assert_eq!(app.map_key(Key::ArrowUp, ElementState::Released), None);
}

#[test]
fn buttons_map_to_commands() {
    let app = OsirisApp::new(RomLibrary::new());
    assert_eq!(app.map_axis(Button::DPadUp), Some(up()));
    assert_eq!(app.map_axis(Button::DPadDown), Some(down()));
    assert_eq!(
        app.map_axis(Button::DPadLeft),
        Some(ControlCommand::Navigation(NavigationCommand::Left))
    );
    assert_eq!(
        app.map_axis(Button::DPadRight),
        Some(ControlCommand::Navigation(NavigationCommand::Right))
    );
    assert_eq!(app.map_axis(Button::South), Some(select()));
    assert_eq!(app.map_axis(Button::East), Some(ControlCommand::Action(ActionCommand::Back)));
    assert_eq!(app.map_axis(Button::Other), None);
}

#[test]
fn host_repeats_and_unknown_keys_are_ignored() {
    let mut app = OsirisApp::new(two_systems());
    assert_eq!(app.window_event(Key::ArrowDown, ElementState::Pressed, true, 0), UiEvent::Nothing);
    assert_eq!(app.window_event(Key::Other, ElementState::Pressed, false, 0), UiEvent::Nothing);
    assert_eq!(app.dispatcher.root.right.left.selected_index, 0);
    assert_eq!(app.dispatcher.held, HeldCommands::new());
}

#[test]
fn keyboard_and_gamepad_hold_the_same_command() {
    let mut app = OsirisApp::new(two_systems());
    assert_eq!(
        app.window_event(Key::ArrowDown, ElementState::Pressed, false, 0),
        UiEvent::GameChanged(1)
    );
    // the pad joins in: no second dispatch
    assert_eq!(app.user_event(Button::DPadDown, ElementState::Pressed, 5), UiEvent::Nothing);
    assert_eq!(app.dispatcher.root.right.left.selected_index, 1);
    // the key comes up: the command is no longer held
    app.window_event(Key::ArrowDown, ElementState::Released, false, 10);
    assert_eq!(app.dispatcher.held, HeldCommands::new());
    assert_eq!(app.about_to_wait(1000), 0);
}

#[test]
fn a_held_key_walks_down_the_list() {
    let mut library = RomLibrary::new();
    let games = (0..20).map(|i| game(&format!("g{}", i), &format!("Game {}", i))).collect();
    library.systems.push(System { name: "ARCADE".to_string(), games });
    let mut app = OsirisApp::new(library);
    app.window_event(Key::ArrowDown, ElementState::Pressed, false, 0);
    let mut sent = 0;
    for now in 1..=400 + 80 * 4 {
        sent += app.about_to_wait(now);
    }
    assert_eq!(sent, 5);
    assert_eq!(app.dispatcher.root.right.left.selected_index, 6);
    assert_eq!(app.dispatcher.root.right.right.selected_game, 6);
}
