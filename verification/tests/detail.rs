use std::rc::Rc;

use osiris::commands::{ActionCommand, ControlCommand, NavigationCommand, UiEvent};
use osiris::models::{Game, RomLibrary, System};
use osiris::tui::{DrawOp, FontUnits, Frame, Rgba, TuiEngine};
use osiris::ui::widgets::common::Widget;
use osiris::ui::widgets::game::ImageSlot;
use osiris::ui::widgets::GameWidget;

fn library() -> Rc<RomLibrary> {
    let mut library = RomLibrary::new();
    library.systems.push(System {
        name: "ARCADE".to_string(),
        games: vec![
            Game {
                id: "pacman".to_string(),
                name: "Pac-Man".to_string(),
                path: "roms/arcade/pacman.zip".to_string(),
                year: "1980".to_string(),
                manufacturer: "Namco".to_string(),
                players: "2".to_string(),
            },
            Game {
                id: "galaga".to_string(),
                name: "Galaga".to_string(),
                path: "roms/arcade/GALAGA.ZIP".to_string(),
                year: "1981".to_string(),
                manufacturer: "Namco".to_string(),
                players: "2".to_string(),
            },
        ],
    });
    library.systems.push(System { name: "Super NES".to_string(), games: Vec::new() });
    Rc::new(library)
}

fn engine() -> TuiEngine {
    TuiEngine::new(FontUnits::new(600, 1320).unwrap())
}

fn texts(frame: &Frame) -> Vec<String> {
    frame
        .ops
        .iter()
        .filter_map(|op| match op {
            DrawOp::Text { text, .. } => Some(text.clone()),
            _ => None,
        })
        .collect()
}

#[test]
fn select_launches_the_shown_pair() {
    let mut panel = GameWidget::new(library());
    assert_eq!(
        panel.handle_command(ControlCommand::Action(ActionCommand::Select)),
        UiEvent::LaunchGame(0, 0)
    );
    panel.handle_ui_event(UiEvent::GameChanged(1));
    assert_eq!(
        panel.handle_command(ControlCommand::Action(ActionCommand::Select)),
        UiEvent::LaunchGame(0, 1)
    );
}

#[test]
fn back_and_navigation_are_silent() {
    let mut panel = GameWidget::new(library());
    assert_eq!(panel.handle_command(ControlCommand::Action(ActionCommand::Back)), UiEvent::Nothing);
    for nav in [
        NavigationCommand::Up,
        NavigationCommand::Down,
        NavigationCommand::Left,
        NavigationCommand::Right,
        NavigationCommand::Idle,
    ] {
        assert_eq!(panel.handle_command(ControlCommand::Navigation(nav)), UiEvent::Nothing);
    }
    assert_eq!((panel.selected_system, panel.selected_game), (0, 0));
}

#[test]
fn events_say_what_to_show() {
    let mut panel = GameWidget::new(library());
    assert_eq!(panel.image, ImageSlot::Absent);
    panel.handle_ui_event(UiEvent::GameChanged(1));
    assert_eq!((panel.selected_system, panel.selected_game, panel.image), (0, 1, ImageSlot::Pending));
    panel.handle_ui_event(UiEvent::SystemChanged(1));
    assert_eq!((panel.selected_system, panel.selected_game, panel.image), (1, 0, ImageSlot::Pending));
    panel.set_image(false);
    panel.handle_ui_event(UiEvent::LaunchGame(0, 0));
    panel.handle_ui_event(UiEvent::Nothing);
    assert_eq!((panel.selected_system, panel.selected_game, panel.image), (1, 0, ImageSlot::Absent));
}

#[test]
fn the_same_event_twice_is_harmless() {
    let mut once = GameWidget::new(library());
    once.handle_ui_event(UiEvent::GameChanged(1));
    let mut twice = GameWidget::new(library());
    twice.handle_ui_event(UiEvent::GameChanged(1));
    twice.handle_ui_event(UiEvent::GameChanged(1));
    assert_eq!(
        (once.selected_system, once.selected_game, once.image),
        (twice.selected_system, twice.selected_game, twice.image)
    );
}

#[test]
fn a_picture_is_sought_once_after_a_change() {
    let mut panel = GameWidget::new(library());
    // nothing changed yet
    assert_eq!(panel.load_image(), None);
    panel.handle_ui_event(UiEvent::GameChanged(1));
    assert_eq!(
        panel.load_image(),
        Some(vec![
            "roms".to_string(),
            "arcade".to_string(),
            "images".to_string(),
            "galaga-image.png".to_string(),
        ])
    );
    panel.set_image(true);
    assert_eq!(panel.image, ImageSlot::Loaded);
    assert_eq!(panel.load_image(), None);
}

#[test]
fn no_picture_is_sought_for_a_game_that_is_not_there() {
    let mut panel = GameWidget::new(library());
    panel.handle_ui_event(UiEvent::SystemChanged(1));
    assert_eq!(panel.load_image(), None);
    panel.handle_ui_event(UiEvent::SystemChanged(9));
    assert_eq!(panel.load_image(), None);
}

#[test]
fn the_system_directory_is_in_lower_case() {
    let mut lib = RomLibrary::new();
    lib.systems.push(System {
        name: "Super NES".to_string(),
        games: vec![Game {
            id: "Mario".to_string(),
            name: "Mario".to_string(),
            path: "m".to_string(),
            year: String::new(),
            manufacturer: String::new(),
            players: String::new(),
        }],
    });
    let mut panel = GameWidget::new(Rc::new(lib));
    panel.handle_ui_event(UiEvent::SystemChanged(0));
    let path = panel.load_image().unwrap();
    assert_eq!(path[1], "super nes");
    // the game's id is taken as it is
    assert_eq!(path[3], "Mario-image.png");
}

#[test]
fn the_panel_shows_the_facts_of_the_game() {
    let mut panel = GameWidget::new(library());
    panel.set_rect(70, 9, 60, 36);
    panel.handle_ui_event(UiEvent::GameChanged(1));
    let engine = engine();
    let metrics = engine.calculate_metrics(1920, 1080);
    let mut frame = Frame::new();
    panel.draw(&mut frame, &engine, &metrics);
    let white = Rgba::new(255, 255, 255, 255);
    let green = Rgba::new(0, 255, 0, 255);
    // the box of 60 by 36: 6 pieces and 34 rows of sides; then the title
    let at = 6 + 68 + 1;
    assert_eq!(
        frame.ops[at],
        DrawOp::Text {
            text: "Galaga".to_string(),
            col: 72,
            row: 11,
            color: white,
            bg: None,
            scale: 2
        }
    );
    assert_eq!(
        frame.ops[at + 1],
        DrawOp::Text {
            text: "PLATFORM: ARCADE".to_string(),
            col: 72,
            row: 14,
            color: green,
            bg: None,
            scale: 1
        }
    );
    assert_eq!(
        frame.ops[at + 2],
        DrawOp::Text {
            text: "Filename: GALAGA.ZIP".to_string(),
            col: 72,
            row: 15,
            color: green,
            bg: None,
            scale: 1
        }
    );
    assert_eq!(
        frame.ops[at + 3],
        DrawOp::Text {
            text: "id: galaga".to_string(),
            col: 72,
            row: 16,
            color: green,
            bg: None,
            scale: 1
        }
    );
    let last = frame.ops.last().unwrap();
    assert_eq!(
        *last,
        DrawOp::Text {
            text: "PLAY COUNT: 003 | RATING: A+".to_string(),
            col: 72,
            row: 43,
            color: white,
            bg: None,
            scale: 1
        }
    );
}

#[test]
fn without_a_picture_the_box_says_so() {
    let mut panel = GameWidget::new(library());
    panel.set_rect(0, 0, 40, 30);
    let engine = engine();
    let metrics = engine.calculate_metrics(1920, 1080);
    let mut frame = Frame::new();
    panel.draw(&mut frame, &engine, &metrics);
    assert!(frame.ops.iter().all(|op| !matches!(op, DrawOp::Image { .. })));
    let notice = frame
        .ops
        .iter()
        .find(|op| matches!(op, DrawOp::Text { text, .. } if text == "NO VISUAL FEED"))
        .unwrap();
    assert_eq!(
        *notice,
        DrawOp::Text {
            text: "NO VISUAL FEED".to_string(),
            // 2 + (36 / 2 - 7)
            col: 13,
            row: 17,
            color: Rgba::new(100, 100, 100, 255),
            bg: None,
            scale: 1
        }
    );
    // the dark first row of the picture box is as wide as the box
    assert!(texts(&frame).contains(&" ".repeat(36)));
}

#[test]
fn with_a_picture_the_box_holds_it() {
    let mut panel = GameWidget::new(library());
    panel.set_rect(0, 0, 40, 30);
    panel.handle_ui_event(UiEvent::GameChanged(0));
    panel.set_image(true);
    let engine = engine();
    let metrics = engine.calculate_metrics(1920, 1080);
    let mut frame = Frame::new();
    panel.draw(&mut frame, &engine, &metrics);
    let pictures: Vec<&DrawOp> =
        frame.ops.iter().filter(|op| matches!(op, DrawOp::Image { .. })).collect();
    assert_eq!(pictures, vec![&DrawOp::Image { col: 2, row: 10, w: 36, h: 14 }]);
    assert!(!texts(&frame).contains(&"NO VISUAL FEED".to_string()));
}

#[test]
fn a_game_that_is_not_there_leaves_frame_and_title() {
    let mut panel = GameWidget::new(library());
    panel.set_rect(0, 0, 10, 2);
    panel.handle_ui_event(UiEvent::SystemChanged(1));
    let engine = engine();
    let metrics = engine.calculate_metrics(1920, 1080);
    let mut frame = Frame::new();
    panel.draw(&mut frame, &engine, &metrics);
    assert_eq!(frame.len(), 7);
    assert_eq!(texts(&frame)[6], " MODULE DETAILS ");
}

#[test]
fn the_play_count_is_three_times_the_index_modulo_99() {
    let mut lib = RomLibrary::new();
    let games = (0..40)
        .map(|i| Game {
            id: format!("g{}", i),
            name: format!("G{}", i),
            path: format!("g{}", i),
            year: String::new(),
            manufacturer: String::new(),
            players: String::new(),
        })
        .collect();
    lib.systems.push(System { name: "S".to_string(), games });
    let mut panel = GameWidget::new(Rc::new(lib));
    panel.set_rect(0, 0, 40, 30);
    let engine = engine();
    let metrics = engine.calculate_metrics(1920, 1080);
    for (index, shown) in [(0usize, "000"), (5, "015"), (33, "000"), (34, "003"), (39, "018")] {
        panel.handle_ui_event(UiEvent::GameChanged(index));
        let mut frame = Frame::new();
        panel.draw(&mut frame, &engine, &metrics);
        let last = texts(&frame).pop().unwrap();
        assert_eq!(last, format!("PLAY COUNT: {} | RATING: A+", shown));
    }
}
