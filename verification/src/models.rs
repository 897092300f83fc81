//! The game library: an ordered list of systems, each with an ordered list
//! of games. It is built once and only read afterwards.

use vstd::prelude::*;

verus! {

/// One game of a system.
#[derive(Debug, Clone)]
pub struct Game {
    /// Short name, such as `atetris`.
    pub id: String,
    /// Display name, such as `Tetris (set 1)`.
    pub name: String,
    /// Where the game's file lies, as text.
    pub path: String,
    pub year: String,
    pub manufacturer: String,
    pub players: String,
}

/// A game with its texts as sequences of characters.
pub struct GameView {
    pub id: Seq<char>,
    pub name: Seq<char>,
    pub path: Seq<char>,
    pub year: Seq<char>,
    pub manufacturer: Seq<char>,
    pub players: Seq<char>,
}

impl DeepView for Game {
    type V = GameView;

    open spec fn deep_view(&self) -> GameView {
        GameView {
            id: self.id@,
            name: self.name@,
            path: self.path@,
            year: self.year@,
            manufacturer: self.manufacturer@,
            players: self.players@,
        }
    }
}

/// One emulated system and its games.
#[derive(Debug, Clone)]
pub struct System {
    pub name: String,
    pub games: Vec<Game>,
}

/// All systems that were found.
pub struct RomLibrary {
    pub systems: Vec<System>,
}

impl RomLibrary {
    /// How many games the system at `system` has; a system that is not in
    /// the library has none.
    pub open spec fn game_count(&self, system: int) -> nat {
        if 0 <= system < self.systems@.len() {
            self.systems@[system].games@.len()
        } else {
            0
        }
    }

    /// Whether the library holds a game at `index` of the system at `system`.
    pub open spec fn has_game(&self, system: int, index: int) -> bool {
        0 <= index < self.game_count(system)
    }

    /// An empty library.
    pub fn new() -> (library: Self)
        ensures
            library.systems@.len() == 0,
    {
        Self { systems: Vec::new() }
    }

    /// The number of systems.
    pub fn system_count(&self) -> (n: usize)
        ensures
            n == self.systems@.len(),
    {
        self.systems.len()
    }

    /// The number of games of the system at `system`, zero where there is no
    /// such system.
    pub fn games_in(&self, system: usize) -> (n: usize)
        ensures
            n == self.game_count(system as int),
    {
        if system < self.systems.len() {
            self.systems[system].games.len()
        } else {
            0
        }
    }

    /// The system at `system`, if there is one.
    pub fn system(&self, system: usize) -> (found: Option<&System>)
        ensures
            found is Some <==> system < self.systems@.len(),
            found matches Some(s) ==> *s == self.systems@[system as int],
    {
        if system < self.systems.len() {
            Some(&self.systems[system])
        } else {
            None
        }
    }

    /// The game at `index` of the system at `system`, if there is one.
    pub fn game(&self, system: usize, index: usize) -> (found: Option<&Game>)
        ensures
            found is Some <==> self.has_game(system as int, index as int),
            found matches Some(g) ==> *g == self.systems@[system as int].games@[index as int],
    {
        if system < self.systems.len() {
            if index < self.systems[system].games.len() {
                return Some(&self.systems[system].games[index]);
            }
        }
        None
    }
}

} // verus!
