//! What is decided while the library is gathered: which files are games,
//! which systems are kept, and what the list of machines that MAME prints
//! says about each game. Reading directories, running MAME and taking its
//! XML apart are the caller's business; here its findings become games.

use vstd::prelude::*;
use vstd::string::StringExecFns;
use crate::models::{Game, GameView, RomLibrary, System};
use crate::text::{join, same_text};

verus! {

/// An attribute of an XML element.
#[derive(Debug, Clone)]
pub struct Attribute {
    pub key: String,
    pub value: String,
}

impl DeepView for Attribute {
    type V = (Seq<char>, Seq<char>);

    open spec fn deep_view(&self) -> (Seq<char>, Seq<char>) {
        (self.key@, self.value@)
    }
}

/// The value of the last attribute `key`, or `fallback` where there is
/// none.
pub open spec fn attribute(
    attributes: Seq<(Seq<char>, Seq<char>)>,
    key: Seq<char>,
    fallback: Seq<char>,
) -> Seq<char>
    decreases attributes.len(),
{
    if attributes.len() == 0 {
        fallback
    } else if attributes.last().0 == key {
        attributes.last().1
    } else {
        attribute(attributes.drop_last(), key, fallback)
    }
}

/// Whether a machine can be run: none of its attributes says
/// `runnable="no"`.
pub open spec fn runnable(attributes: Seq<(Seq<char>, Seq<char>)>) -> bool
    decreases attributes.len(),
{
    if attributes.len() == 0 {
        true
    } else {
        !(attributes.last().0 == "runnable"@ && attributes.last().1 == "no"@) && runnable(
            attributes.drop_last(),
        )
    }
}

/// The game that a machine element announces: known by its short name
/// until a description follows, in a zip file of that name, for one player
/// until an input element says otherwise.
pub open spec fn machine(id: Seq<char>) -> GameView {
    GameView {
        id,
        name: id,
        path: id + ".zip"@,
        year: Seq::empty(),
        manufacturer: Seq::empty(),
        players: "1"@,
    }
}

/// The game that a file in the directory of a system is: named after the
/// file without its extension, with nothing known of its making.
pub open spec fn file_game(stem: Seq<char>, path: Seq<char>) -> GameView {
    GameView {
        id: stem,
        name: stem,
        path,
        year: "UNKNOWN"@,
        manufacturer: "UNKNOWN"@,
        players: "1"@,
    }
}

/// Where the reading of MAME's list stands.
pub struct MameScan {
    /// The machine whose element is open, if it is a game.
    pub current_game: Option<Game>,
    /// The element that opened last, until an element closes.
    pub current_tag: String,
}

/// A `MameScan` with its texts as sequences of characters.
pub struct MameScanView {
    pub current_game: Option<GameView>,
    pub current_tag: Seq<char>,
}

impl DeepView for MameScan {
    type V = MameScanView;

    open spec fn deep_view(&self) -> MameScanView {
        MameScanView {
            current_game: match self.current_game {
                Some(game) => Some(game.deep_view()),
                None => None,
            },
            current_tag: self.current_tag@,
        }
    }
}

impl MameScanView {
    /// The scan after an element opened. A machine that can be run and has
    /// a name becomes the current game; an input element tells the number
    /// of players of the current game; every element is remembered as the
    /// one that opened last.
    pub open spec fn after_start(
        self,
        tag: Seq<char>,
        attributes: Seq<(Seq<char>, Seq<char>)>,
    ) -> MameScanView {
        MameScanView {
            current_tag: tag,
            current_game: if tag == "machine"@ {
                if runnable(attributes) && attribute(attributes, "name"@, Seq::empty()).len()
                    > 0 {
                    Some(machine(attribute(attributes, "name"@, Seq::empty())))
                } else {
                    self.current_game
                }
            } else if tag == "input"@ {
                match self.current_game {
                    Some(game) => Some(
                        GameView {
                            players: attribute(attributes, "players"@, game.players),
                            ..game
                        },
                    ),
                    None => None,
                }
            } else {
                self.current_game
            },
        }
    }

    /// The scan after a piece of text: inside a description, a year or a
    /// manufacturer element it is what the current game is called, when it
    /// came out, or who made it.
    pub open spec fn after_text(self, value: Seq<char>) -> MameScanView {
        match self.current_game {
            Some(game) => MameScanView {
                current_game: Some(
                    if self.current_tag == "description"@ {
                        GameView { name: value, ..game }
                    } else if self.current_tag == "year"@ {
                        GameView { year: value, ..game }
                    } else if self.current_tag == "manufacturer"@ {
                        GameView { manufacturer: value, ..game }
                    } else {
                        game
                    },
                ),
                ..self
            },
            None => self,
        }
    }

    /// The game that is complete when an element closes: the current game,
    /// when its machine closes.
    pub open spec fn finished(self, tag: Seq<char>) -> Option<GameView> {
        if tag == "machine"@ {
            self.current_game
        } else {
            None
        }
    }

    /// The scan after an element closed: no element is open, and a machine
    /// that closed is no longer current.
    pub open spec fn after_end(self, tag: Seq<char>) -> MameScanView {
        MameScanView {
            current_game: if tag == "machine"@ {
                None
            } else {
                self.current_game
            },
            current_tag: Seq::empty(),
        }
    }
}

fn find_attribute(attributes: &Vec<Attribute>, key: &str) -> (found: Option<usize>)
    ensures
        match found {
            Some(i) => i < attributes@.len() && attribute(
                attributes.deep_view(),
                key@,
                Seq::empty(),
            ) == attributes@[i as int].value@ && forall|fallback: Seq<char>|
                #[trigger] attribute(attributes.deep_view(), key@, fallback)
                    == attributes@[i as int].value@,
            None => forall|fallback: Seq<char>|
                #[trigger] attribute(attributes.deep_view(), key@, fallback) == fallback,
        },
{
    let mut i = attributes.len();
    assert(attributes.deep_view().subrange(0, i as int) =~= attributes.deep_view());
    while i > 0
        invariant
            i <= attributes@.len(),
            forall|fallback: Seq<char>|
                #[trigger] attribute(attributes.deep_view(), key@, fallback) == attribute(
                    attributes.deep_view().subrange(0, i as int),
                    key@,
                    fallback,
                ),
        decreases i,
    {
        let ghost head = attributes.deep_view().subrange(0, i as int);
        assert(head.last() == attributes@[i - 1].deep_view());
        assert(head.drop_last() =~= attributes.deep_view().subrange(0, i - 1));
        if same_text(attributes[i - 1].key.as_str(), key) {
            return Some(i - 1);
        }
        i = i - 1;
    }
    assert(attributes.deep_view().subrange(0, 0) =~= Seq::empty());
    None
}

fn is_runnable(attributes: &Vec<Attribute>) -> (can: bool)
    ensures
        can == runnable(attributes.deep_view()),
{
    let mut i = attributes.len();
    assert(attributes.deep_view().subrange(0, i as int) =~= attributes.deep_view());
    while i > 0
        invariant
            i <= attributes@.len(),
            runnable(attributes.deep_view()) == runnable(
                attributes.deep_view().subrange(0, i as int),
            ),
        decreases i,
    {
        let ghost head = attributes.deep_view().subrange(0, i as int);
        assert(head.last() == attributes@[i - 1].deep_view());
        assert(head.drop_last() =~= attributes.deep_view().subrange(0, i - 1));
        if same_text(attributes[i - 1].key.as_str(), "runnable") && same_text(
            attributes[i - 1].value.as_str(),
            "no",
        ) {
            return false;
        }
        i = i - 1;
    }
    assert(attributes.deep_view().subrange(0, 0) =~= Seq::empty());
    true
}

impl MameScan {
    /// A scan that has read nothing yet.
    pub fn new() -> (scan: MameScan)
        ensures
            scan.deep_view() == (MameScanView {
                current_game: None,
                current_tag: Seq::empty(),
            }),
    {
        MameScan { current_game: None, current_tag: String::new() }
    }

    /// An element opened.
    pub fn start(&mut self, tag: &str, attributes: &Vec<Attribute>)
        ensures
            final(self).deep_view() == old(self).deep_view().after_start(
                tag@,
                attributes.deep_view(),
            ),
    {
        if same_text(tag, "machine") {
            let can_run = is_runnable(attributes);
            match find_attribute(attributes, "name") {
                Some(at) => {
                    let id = attributes[at].value.as_str();
                    if can_run && id.unicode_len() > 0 {
                        self.current_game = Some(
                            Game {
                                id: String::from_str(id),
                                name: String::from_str(id),
                                path: join(id, ".zip"),
                                year: String::new(),
                                manufacturer: String::new(),
                                players: String::from_str("1"),
                            },
                        );
                    }
                },
                None => {},
            }
        } else if same_text(tag, "input") {
            match find_attribute(attributes, "players") {
                Some(at) => {
                    match self.current_game.take() {
                        Some(game) => {
                            let mut game = game;
                            game.players = String::from_str(attributes[at].value.as_str());
                            self.current_game = Some(game);
                        },
                        None => {},
                    }
                },
                None => {},
            }
        }
        self.current_tag = String::from_str(tag);
    }

    /// A piece of text was read.
    pub fn text(&mut self, value: &str)
        ensures
            final(self).deep_view() == old(self).deep_view().after_text(value@),
    {
        match self.current_game.take() {
            Some(game) => {
                let mut game = game;
                if same_text(self.current_tag.as_str(), "description") {
                    game.name = String::from_str(value);
                } else if same_text(self.current_tag.as_str(), "year") {
                    game.year = String::from_str(value);
                } else if same_text(self.current_tag.as_str(), "manufacturer") {
                    game.manufacturer = String::from_str(value);
                }
                self.current_game = Some(game);
            },
            None => {},
        }
    }

    /// An element closed. When it was a machine, the answer is the game
    /// that it was, if it was one; the caller keeps it if its file is
    /// there.
    pub fn end(&mut self, tag: &str) -> (game: Option<Game>)
        ensures
            final(self).deep_view() == old(self).deep_view().after_end(tag@),
            game is Some <==> old(self).deep_view().finished(tag@) is Some,
            game matches Some(g) ==> old(self).deep_view().finished(tag@) == Some(g.deep_view()),
    {
        let game = if same_text(tag, "machine") {
            self.current_game.take()
        } else {
            None
        };
        self.current_tag = String::new();
        game
    }
}

/// Tells whether a file of a system's directory is a game, and which: every
/// file is, but those whose name starts with a dot.
pub fn scan_file(file_name: &str, stem: &str, path: &str) -> (game: Option<Game>)
    ensures
        game is Some <==> !(file_name@.len() > 0 && file_name@[0] == '.'),
        game matches Some(g) ==> g.deep_view() == file_game(stem@, path@),
{
    if file_name.unicode_len() > 0 && file_name.get_char(0) == '.' {
        None
    } else {
        Some(
            Game {
                id: String::from_str(stem),
                name: String::from_str(stem),
                path: String::from_str(path),
                year: String::from_str("UNKNOWN"),
                manufacturer: String::from_str("UNKNOWN"),
                players: String::from_str("1"),
            },
        )
    }
}

/// Tells whether a system is MAME, whose games are looked up in MAME's own
/// list.
pub fn is_mame(system_name: &str) -> (mame: bool)
    ensures
        mame == (system_name@ == "MAME"@),
{
    same_text(system_name, "MAME")
}

/// Adds a system to the library if it has any games.
pub fn add_system(library: &mut RomLibrary, name: String, games: Vec<Game>)
    ensures
        final(library).systems@ == if games@.len() > 0 {
            old(library).systems@.push(System { name, games })
        } else {
            old(library).systems@
        },
{
    if games.len() > 0 {
        library.systems.push(System { name, games });
    }
}

} // verus!
