use std::rc::Rc;

use osiris::commands::{ActionCommand, ControlCommand, NavigationCommand, UiEvent};
use osiris::models::{Game, RomLibrary, System};
use osiris::tui::{DrawOp, FontUnits, Frame, Rgba, TuiEngine};
use osiris::ui::widgets::common::Widget;
use osiris::ui::widgets::ListWidget;

fn game(name: &str) -> Game {
    Game {
        id: name.to_lowercase(),
        name: name.to_string(),
        path: format!("roms/{}.zip", name),
        year: String::new(),
        manufacturer: String::new(),
        players: "1".to_string(),
    }
}

fn library(counts: &[usize]) -> Rc<RomLibrary> {
    let mut library = RomLibrary::new();
    for (s, count) in counts.iter().enumerate() {
        let games = (0..*count).map(|g| game(&format!("G{}", g))).collect();
        library.systems.push(System { name: format!("S{}", s), games });
    }
    Rc::new(library)
}

fn up() -> ControlCommand {
    ControlCommand::Navigation(NavigationCommand::Up)
}

fn down() -> ControlCommand {
    ControlCommand::Navigation(NavigationCommand::Down)
}

fn select() -> ControlCommand {
    ControlCommand::Action(ActionCommand::Select)
}

#[test]
fn a_new_list_shows_the_first_game_of_the_first_system() {
    let list = ListWidget::new(library(&[3]));
    assert_eq!(list.title, "GAME LIST");
    assert_eq!((list.selected_system, list.selected_index, list.scroll_offset), (0, 0, 0));
    assert_eq!((list.x, list.y, list.w, list.h), (0, 0, 0, 0));
}

#[test]
fn up_at_the_first_game_changes_nothing() {
    let mut list = ListWidget::new(library(&[3]));
    list.set_rect(0, 0, 20, 10);
    assert_eq!(list.handle_command(up()), UiEvent::Nothing);
    assert_eq!((list.selected_index, list.scroll_offset), (0, 0));
}

#[test]
fn down_at_the_last_game_changes_nothing() {
    let mut list = ListWidget::new(library(&[3]));
    list.set_rect(0, 0, 20, 10);
    list.selected_index = 2;
    assert_eq!(list.handle_command(down()), UiEvent::Nothing);
    assert_eq!((list.selected_index, list.scroll_offset), (2, 0));
}

#[test]
fn down_on_an_empty_list_changes_nothing() {
    let mut list = ListWidget::new(library(&[0]));
    list.set_rect(0, 0, 20, 10);
    assert_eq!(list.handle_command(down()), UiEvent::Nothing);
    assert_eq!(list.handle_command(up()), UiEvent::Nothing);
    assert_eq!(list.selected_index, 0);
}

#[test]
fn a_system_that_is_not_there_has_no_games() {
    let mut list = ListWidget::new(library(&[]));
    assert_eq!(list.handle_command(down()), UiEvent::Nothing);
    assert_eq!(list.handle_command(select()), UiEvent::Nothing);
    list.handle_ui_event(UiEvent::SystemChanged(7));
    assert_eq!(list.handle_command(down()), UiEvent::Nothing);
    assert_eq!(list.selected_system, 7);
}

#[test]
fn moves_report_the_new_index() {
    let mut list = ListWidget::new(library(&[3]));
    list.set_rect(0, 0, 20, 10);
    assert_eq!(list.handle_command(down()), UiEvent::GameChanged(1));
    assert_eq!(list.handle_command(down()), UiEvent::GameChanged(2));
    assert_eq!(list.handle_command(up()), UiEvent::GameChanged(1));
    assert_eq!(list.selected_index, 1);
}

#[test]
fn select_launches_the_selected_game_of_the_selected_system() {
    let mut list = ListWidget::new(library(&[2, 4]));
    list.handle_ui_event(UiEvent::SystemChanged(1));
    list.set_rect(0, 0, 20, 10);
    list.handle_command(down());
    list.handle_command(down());
    assert_eq!(list.handle_command(select()), UiEvent::LaunchGame(1, 2));
    assert_eq!(list.selected_index, 2);
}

#[test]
fn back_and_sideways_are_ignored() {
    let mut list = ListWidget::new(library(&[3]));
    let others = [
        ControlCommand::Action(ActionCommand::Back),
        ControlCommand::Navigation(NavigationCommand::Left),
        ControlCommand::Navigation(NavigationCommand::Right),
        ControlCommand::Navigation(NavigationCommand::Idle),
    ];
    for cmd in others {
        assert_eq!(list.handle_command(cmd), UiEvent::Nothing);
        assert_eq!(list.selected_index, 0);
    }
}

#[test]
fn the_window_follows_the_selection_down_and_up() {
    let mut list = ListWidget::new(library(&[10]));
    // five rows high: three rows for items
    list.set_rect(0, 0, 20, 5);
    list.handle_command(down());
    list.handle_command(down());
    assert_eq!((list.selected_index, list.scroll_offset), (2, 0));
    // below the window: the selection lands on the last visible row
    list.handle_command(down());
    assert_eq!((list.selected_index, list.scroll_offset), (3, 1));
    list.handle_command(down());
    assert_eq!((list.selected_index, list.scroll_offset), (4, 2));
    list.handle_command(up());
    list.handle_command(up());
    assert_eq!((list.selected_index, list.scroll_offset), (2, 2));
    // above the window: the window starts at the selection
    list.handle_command(up());
    assert_eq!((list.selected_index, list.scroll_offset), (1, 1));
}

#[test]
fn a_changed_system_resets_index_and_window() {
    let mut list = ListWidget::new(library(&[10, 2]));
    list.set_rect(0, 0, 20, 5);
    for _ in 0..6 {
        list.handle_command(down());
    }
    assert_eq!((list.selected_index, list.scroll_offset), (6, 4));
    list.handle_ui_event(UiEvent::SystemChanged(1));
    assert_eq!((list.selected_system, list.selected_index, list.scroll_offset), (1, 0, 0));
    // hearing it twice does no harm
    list.handle_ui_event(UiEvent::SystemChanged(1));
    assert_eq!((list.selected_system, list.selected_index, list.scroll_offset), (1, 0, 0));
}

#[test]
fn other_events_change_nothing() {
    let mut list = ListWidget::new(library(&[10]));
    list.set_rect(0, 0, 20, 5);
    list.handle_command(down());
    list.handle_ui_event(UiEvent::GameChanged(5));
    list.handle_ui_event(UiEvent::LaunchGame(0, 0));
    list.handle_ui_event(UiEvent::Nothing);
    assert_eq!((list.selected_system, list.selected_index, list.scroll_offset), (0, 1, 0));
}

fn engine() -> TuiEngine {
    TuiEngine::new(FontUnits::new(600, 1320).unwrap())
}

#[test]
fn rows_are_fitted_and_the_selection_is_highlighted() {
    let mut list = ListWidget::new(library(&[2]));
    list.set_rect(3, 4, 10, 6);
    list.handle_command(down());
    let engine = engine();
    let metrics = engine.calculate_metrics(1920, 1080);
    let mut frame = Frame::new();
    list.draw(&mut frame, &engine, &metrics);
    // box: 6 pieces and 4 rows of sides; the title; two rows
    assert_eq!(frame.len(), 6 + 8 + 1 + 2);
    assert_eq!(
        frame.ops[14],
        DrawOp::Text {
            text: " GAME LIST ".to_string(),
            col: 5,
            row: 4,
            color: Rgba::new(0, 255, 0, 255),
            bg: Some(Rgba::new(5, 10, 0, 255)),
            scale: 1,
        }
    );
    assert_eq!(
        frame.ops[15],
        DrawOp::Text {
            text: "G0    ".to_string(),
            col: 5,
            row: 5,
            color: Rgba::new(180, 180, 180, 255),
            bg: None,
            scale: 1,
        }
    );
    assert_eq!(
        frame.ops[16],
        DrawOp::Text {
            text: "G1    ".to_string(),
            col: 5,
            row: 6,
            color: Rgba::new(255, 255, 255, 255),
            bg: Some(Rgba::new(60, 60, 0, 255)),
            scale: 1,
        }
    );
}

#[test]
fn a_long_list_gets_a_scroll_bar_with_one_handle() {
    let mut list = ListWidget::new(library(&[10]));
    list.set_rect(0, 0, 12, 6);
    for _ in 0..9 {
        list.handle_command(down());
    }
    assert_eq!((list.selected_index, list.scroll_offset), (9, 6));
    let engine = engine();
    let metrics = engine.calculate_metrics(1920, 1080);
    let mut frame = Frame::new();
    list.draw(&mut frame, &engine, &metrics);
    let bar: Vec<(String, usize, usize)> = frame
        .ops
        .iter()
        .filter_map(|op| match op {
            DrawOp::Text { text, col, row, .. } if text == "█" || text == "▒" => {
                Some((text.clone(), *col, *row))
            }
            _ => None,
        })
        .collect();
    // four rows; the window is at the end, so the handle is on the last row
    assert_eq!(
        bar,
        vec![
            ("▒".to_string(), 11, 1),
            ("▒".to_string(), 11, 2),
            ("▒".to_string(), 11, 3),
            ("█".to_string(), 11, 4),
        ]
    );
}

#[test]
fn the_handle_sits_at_the_nearest_row() {
    let mut list = ListWidget::new(library(&[10]));
    list.set_rect(0, 0, 12, 6);
    // offset 3 of 6 possible, track of 3 steps: 1.5 rounds up to row 2
    list.selected_index = 3;
    list.scroll_offset = 3;
    let engine = engine();
    let metrics = engine.calculate_metrics(1920, 1080);
    let mut frame = Frame::new();
    list.draw(&mut frame, &engine, &metrics);
    let handle: Vec<usize> = frame
        .ops
        .iter()
        .filter_map(|op| match op {
            DrawOp::Text { text, row, .. } if text == "█" => Some(*row),
            _ => None,
        })
        .collect();
    assert_eq!(handle, vec![3]);
}
