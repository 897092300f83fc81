//! The detail panel: the game that the list shows as selected, with its
//! picture if it has one. It has no selection of its own.

use std::rc::Rc;
use vstd::prelude::*;
use vstd::string::StringExecFns;
use crate::commands::{ActionCommand, ControlCommand, UiEvent};
use crate::models::{Game, RomLibrary};
use crate::text::{
    file_name, file_name_of, format_three_digits, join, lowercased, repeat, repeated, three_digits,
    to_lowercase,
};
use crate::tui::{box_ops, plain_text, DrawOp, DrawOpView, Frame, Rgba, TuiEngine, TuiMetrics};
use crate::ui::widgets::common::{Rect, Widget};

verus! {

/// What the panel knows of the picture of the game it shows.
#[derive(Debug, Clone, Copy, PartialEq, Eq, Structural)]
pub enum ImageSlot {
    /// The shown game changed, and nobody has looked for its picture yet.
    Pending,
    /// There is no picture to show.
    Absent,
    /// The picture is there.
    Loaded,
}

/// The height of the picture box, in rows.
pub const IMAGE_ROWS: usize = 14;

/// The details of one game.
pub struct GameWidget {
    pub library: Rc<RomLibrary>,
    pub selected_system: usize,
    pub selected_game: usize,
    pub image: ImageSlot,
    pub x: usize,
    pub y: usize,
    pub w: usize,
    pub h: usize,
}

/// Where the picture of the game `id` of the system `system` lies, one path
/// component after the other.
pub open spec fn image_path(system: Seq<char>, id: Seq<char>) -> Seq<Seq<char>> {
    seq!["roms"@, lowercased(system), "images"@, id + "-image.png"@]
}

/// The play count that the panel shows for the game at `index`.
pub open spec fn play_count(index: usize) -> nat {
    ((index * 3) % 99) as nat
}

/// The frame and the title of a detail panel in the given rectangle.
pub open spec fn details_header(x: usize, y: usize, w: usize, h: usize) -> Seq<DrawOpView> {
    box_ops(x, y, w, h, Rgba::new(255, 255, 0, 255)).push(
        DrawOpView::Text {
            text: " MODULE DETAILS "@,
            col: x.saturating_add(2),
            row: y,
            color: Rgba::new(255, 255, 0, 255),
            bg: Some(Rgba::new(5, 10, 0, 255)),
            scale: 1,
        },
    )
}

/// The picture box of a detail panel at column `x`, row `y` that is `w`
/// cells wide: a dark first row, a frame as wide as the panel less border
/// and margin, and in it the picture, or a notice in its middle that there
/// is none.
pub open spec fn picture_box(x: usize, y: usize, w: usize, loaded: bool) -> Seq<DrawOpView> {
    let col = x.saturating_add(2);
    let row = y.saturating_add(10);
    let cols = w.saturating_sub(4);
    (seq![
        DrawOpView::Text {
            text: repeated(" "@, cols as nat),
            col,
            row,
            color: Rgba::new(0, 0, 0, 0),
            bg: Some(Rgba::new(5, 15, 5, 255)),
            scale: 1,
        },
    ] + box_ops(col, row, cols, IMAGE_ROWS, Rgba::new(255, 255, 0, 255))).push(
        if loaded {
            DrawOpView::Image { col, row, w: cols, h: IMAGE_ROWS }
        } else {
            plain_text(
                "NO VISUAL FEED"@,
                col.saturating_add(((cols / 2) as usize).saturating_sub(7)),
                row.saturating_add(7),
                Rgba::new(100, 100, 100, 255),
            )
        },
    )
}

/// The line of statistics on the last row inside the frame of a detail
/// panel.
pub open spec fn stats_line(x: usize, y: usize, h: usize, count: nat) -> DrawOpView {
    plain_text(
        "PLAY COUNT: "@ + three_digits(count) + " | RATING: A+"@,
        x.saturating_add(2),
        y.saturating_add(h).saturating_sub(2),
        Rgba::new(255, 255, 255, 255),
    )
}

/// Draws the frame and the title of a detail panel.
pub fn draw_details_header(frame: &mut Frame, engine: &TuiEngine, x: usize, y: usize, w: usize, h: usize)
    ensures
        final(frame)@ == old(frame)@ + details_header(x, y, w, h),
{
    let cyan = Rgba::new(255, 255, 0, 255);
    engine.draw_box(frame, x, y, w, h, cyan);
    engine.draw_string_ex(
        frame,
        " MODULE DETAILS ",
        x.saturating_add(2),
        y,
        cyan,
        Some(Rgba::new(5, 10, 0, 255)),
        1,
    );
    assert(frame@ =~= old(frame)@ + details_header(x, y, w, h));
}

/// Draws the picture box of a detail panel.
pub fn draw_picture_box(frame: &mut Frame, engine: &TuiEngine, x: usize, y: usize, w: usize, loaded: bool)
    ensures
        final(frame)@ == old(frame)@ + picture_box(x, y, w, loaded),
{
    let col = x.saturating_add(2);
    let img_w = w.saturating_sub(4);
    let img_y = y.saturating_add(10);
    let blank = repeat(" ", img_w);
    engine.draw_string_ex(
        frame,
        blank.as_str(),
        col,
        img_y,
        Rgba::new(0, 0, 0, 0),
        Some(Rgba::new(5, 15, 5, 255)),
        1,
    );
    engine.draw_box(frame, col, img_y, img_w, IMAGE_ROWS, Rgba::new(255, 255, 0, 255));
    if loaded {
        frame.push(DrawOp::Image { col, row: img_y, w: img_w, h: IMAGE_ROWS });
    } else {
        engine.draw_string(
            frame,
            "NO VISUAL FEED",
            col.saturating_add((img_w / 2).saturating_sub(7)),
            img_y.saturating_add(7),
            Rgba::new(100, 100, 100, 255),
        );
    }
    assert(frame@ =~= old(frame)@ + picture_box(x, y, w, loaded));
}

/// Draws the line of statistics of a detail panel.
pub(crate) fn draw_stats_line(frame: &mut Frame, engine: &TuiEngine, x: usize, y: usize, h: usize, count: usize)
    requires
        count < 1000,
    ensures
        final(frame)@ == old(frame)@.push(stats_line(x, y, h, count as nat)),
{
    let digits = format_three_digits(count);
    let counted = join("PLAY COUNT: ", digits.as_str());
    let stats = join(counted.as_str(), " | RATING: A+");
    engine.draw_string(
        frame,
        stats.as_str(),
        x.saturating_add(2),
        y.saturating_add(h).saturating_sub(2),
        Rgba::new(255, 255, 255, 255),
    );
}

impl GameWidget {
    /// Whether the library holds the game that the panel is to show.
    pub open spec fn has_game(&self) -> bool {
        self.library.has_game(self.selected_system as int, self.selected_game as int)
    }

    /// The game that the panel shows.
    pub open spec fn game(&self) -> Game
        recommends
            self.has_game(),
    {
        self.library.systems@[self.selected_system as int].games@[self.selected_game as int]
    }

    /// The name of the system that the panel shows.
    pub open spec fn system_name(&self) -> Seq<char>
        recommends
            self.has_game(),
    {
        self.library.systems@[self.selected_system as int].name@
    }

    /// The frame and the title of the panel.
    pub open spec fn header(&self) -> Seq<DrawOpView> {
        details_header(self.x, self.y, self.w, self.h)
    }

    /// The game's name at double size, and under it its platform, its
    /// file's name and its short name.
    pub open spec fn facts(&self) -> Seq<DrawOpView> {
        let col = self.x.saturating_add(2);
        let green = Rgba::new(0, 255, 0, 255);
        let file = match file_name_of(self.game().path@) {
            Some(name) => name,
            None => Seq::empty(),
        };
        seq![
            DrawOpView::Text {
                text: self.game().name@,
                col,
                row: self.y.saturating_add(2),
                color: Rgba::new(255, 255, 255, 255),
                bg: None,
                scale: 2,
            },
            plain_text("PLATFORM: "@ + self.system_name(), col, self.y.saturating_add(5), green),
            plain_text("Filename: "@ + file, col, self.y.saturating_add(6), green),
            plain_text("id: "@ + self.game().id@, col, self.y.saturating_add(7), green),
        ]
    }

    /// The picture box: a dark first row, a frame, and in it the picture,
    /// or a notice in its middle that there is none.
    pub open spec fn image_box(&self) -> Seq<DrawOpView> {
        picture_box(self.x, self.y, self.w, self.image == ImageSlot::Loaded)
    }

    /// The line of statistics on the last row inside the frame.
    pub open spec fn footer(&self) -> DrawOpView {
        stats_line(self.x, self.y, self.h, play_count(self.selected_game))
    }

    /// A panel over `library` that shows the first game of the first
    /// system, without a picture.
    pub fn new(library: Rc<RomLibrary>) -> (panel: Self)
        ensures
            panel == (GameWidget {
                library,
                selected_system: 0,
                selected_game: 0,
                image: ImageSlot::Absent,
                x: 0,
                y: 0,
                w: 0,
                h: 0,
            }),
    {
        Self {
            library,
            selected_system: 0,
            selected_game: 0,
            image: ImageSlot::Absent,
            x: 0,
            y: 0,
            w: 0,
            h: 0,
        }
    }

    /// Where to look for the picture, if one is due: the components of its
    /// path, from the directory of all games down to the file. Nothing is
    /// due unless the shown game changed since the last answer, and nothing
    /// can be looked for where the library has no such game.
    pub fn load_image(&self) -> (path: Option<Vec<String>>)
        ensures
            path is Some <==> self.image == ImageSlot::Pending && self.has_game(),
            path matches Some(p) ==> p.deep_view() == image_path(
                self.system_name(),
                self.game().id@,
            ),
    {
        match self.image {
            ImageSlot::Pending => {},
            _ => {
                return None;
            },
        }
        match self.library.game(self.selected_system, self.selected_game) {
            Some(game) => {
                let system = &self.library.systems[self.selected_system];
                let mut path: Vec<String> = Vec::new();
                path.push(String::from_str("roms"));
                path.push(to_lowercase(system.name.as_str()));
                path.push(String::from_str("images"));
                path.push(join(game.id.as_str(), "-image.png"));
                assert(path.deep_view() =~= image_path(self.system_name(), self.game().id@));
                Some(path)
            },
            None => None,
        }
    }

    /// Records how the search for the picture ended: with `found` the panel
    /// shows the picture from now on, else the notice that there is none.
    pub fn set_image(&mut self, found: bool)
        ensures
            *final(self) == (GameWidget {
                image: if found {
                    ImageSlot::Loaded
                } else {
                    ImageSlot::Absent
                },
                ..*old(self)
            }),
    {
        self.image = if found {
            ImageSlot::Loaded
        } else {
            ImageSlot::Absent
        };
    }

    fn draw_facts(&self, frame: &mut Frame, engine: &TuiEngine)
        requires
            self.has_game(),
        ensures
            final(frame)@ == old(frame)@ + self.facts(),
    {
        let green = Rgba::new(0, 255, 0, 255);
        let col = self.x.saturating_add(2);
        let system = &self.library.systems[self.selected_system];
        let game = &system.games[self.selected_game];
        engine.draw_string_ex(
            frame,
            game.name.as_str(),
            col,
            self.y.saturating_add(2),
            Rgba::new(255, 255, 255, 255),
            None,
            2,
        );
        let platform = join("PLATFORM: ", system.name.as_str());
        engine.draw_string(frame, platform.as_str(), col, self.y.saturating_add(5), green);
        let file = match file_name(game.path.as_str()) {
            Some(name) => name,
            None => String::new(),
        };
        let file_line = join("Filename: ", file.as_str());
        engine.draw_string(frame, file_line.as_str(), col, self.y.saturating_add(6), green);
        let id_line = join("id: ", game.id.as_str());
        engine.draw_string(frame, id_line.as_str(), col, self.y.saturating_add(7), green);
        assert(frame@ =~= old(frame)@ + self.facts());
    }
}

impl Widget for GameWidget {
    open spec fn placed(&self, rect: Rect) -> Self {
        GameWidget { x: rect.x, y: rect.y, w: rect.w, h: rect.h, ..*self }
    }

    open spec fn event_of(&self, cmd: ControlCommand) -> UiEvent {
        if cmd == ControlCommand::Action(ActionCommand::Select) {
            UiEvent::LaunchGame(self.selected_system, self.selected_game)
        } else {
            UiEvent::Nothing
        }
    }

    open spec fn after_command(&self, cmd: ControlCommand) -> Self {
        *self
    }

    open spec fn after_event(&self, event: UiEvent) -> Self {
        match event {
            UiEvent::SystemChanged(system) => GameWidget {
                selected_system: system,
                selected_game: 0,
                image: ImageSlot::Pending,
                ..*self
            },
            UiEvent::GameChanged(game) => GameWidget {
                selected_game: game,
                image: ImageSlot::Pending,
                ..*self
            },
            _ => *self,
        }
    }

    open spec fn picture(&self) -> Seq<DrawOpView> {
        if self.has_game() {
            (self.header() + self.facts() + self.image_box()).push(self.footer())
        } else {
            self.header()
        }
    }

    fn draw(&self, frame: &mut Frame, engine: &TuiEngine, metrics: &TuiMetrics) {
        draw_details_header(frame, engine, self.x, self.y, self.w, self.h);
        if self.library.game(self.selected_system, self.selected_game).is_none() {
            return ;
        }
        self.draw_facts(frame, engine);
        let loaded = match self.image {
            ImageSlot::Loaded => true,
            _ => false,
        };
        draw_picture_box(frame, engine, self.x, self.y, self.w, loaded);
        let count = ((self.selected_game % 99) * 3) % 99;
        assert(count == play_count(self.selected_game)) by {
            vstd::arithmetic::div_mod::lemma_mul_mod_noop_left(self.selected_game as int, 3, 99);
        }
        draw_stats_line(frame, engine, self.x, self.y, self.h, count);
        assert(frame@ =~= old(frame)@ + self.picture());
    }

    fn set_rect(&mut self, x: usize, y: usize, w: usize, h: usize) {
        self.x = x;
        self.y = y;
        self.w = w;
        self.h = h;
    }

    fn handle_command(&mut self, cmd: ControlCommand) -> (event: UiEvent) {
        match cmd {
            ControlCommand::Action(action_command) => match action_command {
                ActionCommand::Select => UiEvent::LaunchGame(self.selected_system, self.selected_game),
                ActionCommand::Back => UiEvent::Nothing,
            },
            _ => UiEvent::Nothing,
        }
    }

    fn handle_ui_event(&mut self, event: UiEvent) {
        match event {
            UiEvent::SystemChanged(system_idx) => {
                self.selected_system = system_idx;
                self.selected_game = 0;
                self.image = ImageSlot::Pending;
            },
            UiEvent::GameChanged(game_idx) => {
                self.selected_game = game_idx;
                self.image = ImageSlot::Pending;
            },
            _ => {},
        }
    }
}

/// Hearing the same event twice leaves the panel as hearing it once does.
pub proof fn lemma_event_twice(panel: GameWidget, event: UiEvent)
    ensures
        panel.after_event(event).after_event(event) == panel.after_event(event),
{
}

} // verus!
