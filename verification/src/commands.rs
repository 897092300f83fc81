//! The vocabulary exchanged between input dispatch and the widgets: the
//! commands that go down the widget tree and the events that come back up.

use vstd::prelude::*;

verus! {

/// A direction of travel through the menus. `Idle` stands for "no direction"
/// and is never acted upon.
#[derive(Debug, Clone, Copy, PartialEq, Eq, Hash, Structural)]
pub enum NavigationCommand {
    Up,
    Down,
    Left,
    Right,
    Idle,
}

/// A confirm or cancel action.
#[derive(Debug, Clone, Copy, PartialEq, Eq, Hash, Structural)]
pub enum ActionCommand {
    Select,
    Back,
}

/// A logical input, tagged by whether it moves the selection or acts on it.
#[derive(Debug, Clone, Copy, PartialEq, Eq, Hash, Structural)]
pub enum ControlCommand {
    Navigation(NavigationCommand),
    Action(ActionCommand),
}

/// The same six inputs as one flat enumeration, for callers that do not
/// distinguish actions from navigation.
#[derive(Debug, Clone, Copy, PartialEq, Eq, Hash, Structural)]
pub enum NavCommand {
    Up,
    Down,
    Left,
    Right,
    Select,
    Back,
}

/// What a widget wants its siblings to know after it handled a command.
/// `Nothing` is the no-op value.
#[derive(Debug, Clone, Copy, PartialEq, Eq, Structural)]
pub enum UiEvent {
    Nothing,
    SystemChanged(usize),
    GameChanged(usize),
    LaunchGame(usize, usize),
}

impl NavCommand {
    /// The tagged command that carries the same input.
    pub open spec fn tagged(self) -> ControlCommand {
        match self {
            NavCommand::Up => ControlCommand::Navigation(NavigationCommand::Up),
            NavCommand::Down => ControlCommand::Navigation(NavigationCommand::Down),
            NavCommand::Left => ControlCommand::Navigation(NavigationCommand::Left),
            NavCommand::Right => ControlCommand::Navigation(NavigationCommand::Right),
            NavCommand::Select => ControlCommand::Action(ActionCommand::Select),
            NavCommand::Back => ControlCommand::Action(ActionCommand::Back),
        }
    }

    /// Converts the flat form into the tagged form.
    pub fn to_control(self) -> (cmd: ControlCommand)
        ensures
            cmd == self.tagged(),
            cmd.flat() == Some(self),
    {
        match self {
            NavCommand::Up => ControlCommand::Navigation(NavigationCommand::Up),
            NavCommand::Down => ControlCommand::Navigation(NavigationCommand::Down),
            NavCommand::Left => ControlCommand::Navigation(NavigationCommand::Left),
            NavCommand::Right => ControlCommand::Navigation(NavigationCommand::Right),
            NavCommand::Select => ControlCommand::Action(ActionCommand::Select),
            NavCommand::Back => ControlCommand::Action(ActionCommand::Back),
        }
    }
}

impl ControlCommand {
    /// The flat command that carries the same input; `Navigation(Idle)`
    /// carries none.
    pub open spec fn flat(self) -> Option<NavCommand> {
        match self {
            ControlCommand::Navigation(NavigationCommand::Up) => Some(NavCommand::Up),
            ControlCommand::Navigation(NavigationCommand::Down) => Some(NavCommand::Down),
            ControlCommand::Navigation(NavigationCommand::Left) => Some(NavCommand::Left),
            ControlCommand::Navigation(NavigationCommand::Right) => Some(NavCommand::Right),
            ControlCommand::Navigation(NavigationCommand::Idle) => None,
            ControlCommand::Action(ActionCommand::Select) => Some(NavCommand::Select),
            ControlCommand::Action(ActionCommand::Back) => Some(NavCommand::Back),
        }
    }

    /// Whether the command is a direction that may auto-repeat while held.
    pub open spec fn is_direction(self) -> bool {
        self matches ControlCommand::Navigation(n) && n != NavigationCommand::Idle
    }

    /// Converts the tagged form into the flat form.
    pub fn to_flat(self) -> (flat: Option<NavCommand>)
        ensures
            flat == self.flat(),
            flat matches Some(f) ==> f.tagged() == self,
    {
        match self {
            ControlCommand::Navigation(NavigationCommand::Up) => Some(NavCommand::Up),
            ControlCommand::Navigation(NavigationCommand::Down) => Some(NavCommand::Down),
            ControlCommand::Navigation(NavigationCommand::Left) => Some(NavCommand::Left),
            ControlCommand::Navigation(NavigationCommand::Right) => Some(NavCommand::Right),
            ControlCommand::Navigation(NavigationCommand::Idle) => None,
            ControlCommand::Action(ActionCommand::Select) => Some(NavCommand::Select),
            ControlCommand::Action(ActionCommand::Back) => Some(NavCommand::Back),
        }
    }
}

/// The two command forms carry the same six inputs: converting a flat
/// command to its tagged form and back gives the command again, and every
/// tagged command that has a flat form is the tagged form of it.
pub proof fn lemma_command_forms_agree(flat: NavCommand, cmd: ControlCommand)
    ensures
        flat.tagged().flat() == Some(flat),
        cmd.flat() matches Some(f) ==> f.tagged() == cmd,
        cmd.flat() is None <==> cmd == ControlCommand::Navigation(NavigationCommand::Idle),
{
}

} // verus!
