//! The creator state of a player and the game mode that it stands for.

use vstd::prelude::*;
use crate::text::same_text;

verus! {

/// The game mode that the server assigns to a player.
#[derive(Clone, Copy, PartialEq, Eq, Debug, Structural)]
pub enum GameMode {
    Survival,
    Creative,
    Adventure,
    Spectator,
}

/// The operating mode of a player who is allowed to create.
#[derive(Clone, Copy, PartialEq, Eq, Debug, Structural)]
pub enum CreatorState {
    Build,
    Config,
    View,
    Test,
}

impl Default for CreatorState {
    /// A player who becomes eligible starts by viewing.
    fn default() -> (state: CreatorState)
        ensures
            state == CreatorState::View,
    {
        CreatorState::View
    }
}

impl CreatorState {
    /// The game mode of each state. The table is total: every state has
    /// exactly one game mode, and no two states share one.
    pub open spec fn spec_game_mode(self) -> GameMode {
        match self {
            CreatorState::Build => GameMode::Creative,
            CreatorState::Config => GameMode::Adventure,
            CreatorState::View => GameMode::Spectator,
            CreatorState::Test => GameMode::Survival,
        }
    }

    /// The name under which a state is reported to the player.
    pub open spec fn spec_name(self) -> Seq<char> {
        match self {
            CreatorState::Build => "Build"@,
            CreatorState::Config => "Config"@,
            CreatorState::View => "View"@,
            CreatorState::Test => "Test"@,
        }
    }

    /// The state that a command selects. The four `gamemode` commands are
    /// matched letter for letter; any other text selects `View`.
    pub open spec fn of_command(command: Seq<char>) -> CreatorState {
        if command == "gamemode creative"@ {
            CreatorState::Build
        } else if command == "gamemode spectator"@ {
            CreatorState::View
        } else if command == "gamemode adventure"@ {
            CreatorState::Config
        } else if command == "gamemode survival"@ {
            CreatorState::Test
        } else {
            CreatorState::View
        }
    }

    /// The game mode that this state stands for.
    pub fn game_mode(&self) -> (mode: GameMode)
        ensures
            mode == self.spec_game_mode(),
    {
        match self {
            CreatorState::Build => GameMode::Creative,
            CreatorState::Config => GameMode::Adventure,
            CreatorState::View => GameMode::Spectator,
            CreatorState::Test => GameMode::Survival,
        }
    }

    /// The name of this state, as it is shown to the player.
    pub fn to_string(&self) -> (name: String)
        ensures
            name@ == self.spec_name(),
    {
        match self {
            CreatorState::Build => String::from_str("Build"),
            CreatorState::Config => String::from_str("Config"),
            CreatorState::View => String::from_str("View"),
            CreatorState::Test => String::from_str("Test"),
        }
    }

    /// Classifies the text of a command.
    pub fn from_command(command: &str) -> (state: CreatorState)
        ensures
            state == Self::of_command(command@),
    {
        if same_text(command, "gamemode creative") {
            CreatorState::Build
        } else if same_text(command, "gamemode spectator") {
            CreatorState::View
        } else if same_text(command, "gamemode adventure") {
            CreatorState::Config
        } else if same_text(command, "gamemode survival") {
            CreatorState::Test
        } else {
            CreatorState::View
        }
    }
}

/// No two states share a game mode: the game mode tells which state set it.
pub proof fn lemma_game_modes_differ(a: CreatorState, b: CreatorState)
    ensures
        a.spec_game_mode() == b.spec_game_mode() <==> a == b,
{
}

/// The four commands of the table are four different texts, so each of them
/// selects the state that stands beside it.
pub proof fn lemma_command_table()
    ensures
        CreatorState::of_command("gamemode creative"@) == CreatorState::Build,
        CreatorState::of_command("gamemode spectator"@) == CreatorState::View,
        CreatorState::of_command("gamemode adventure"@) == CreatorState::Config,
        CreatorState::of_command("gamemode survival"@) == CreatorState::Test,
{
    reveal_strlit("gamemode creative");
    reveal_strlit("gamemode spectator");
    reveal_strlit("gamemode adventure");
    reveal_strlit("gamemode survival");
    // Two of the texts have 17 characters and two have 18, and within each
    // pair the tenth character differs.
    assert("gamemode creative"@.len() == 17 && "gamemode survival"@.len() == 17);
    assert("gamemode spectator"@.len() == 18 && "gamemode adventure"@.len() == 18);
    assert("gamemode creative"@[9] == 'c' && "gamemode survival"@[9] == 's');
    assert("gamemode spectator"@[9] == 's' && "gamemode adventure"@[9] == 'a');
}

impl<'a> From<&'a CreatorState> for GameMode {
    fn from(state: &'a CreatorState) -> (mode: GameMode) {
        state.game_mode()
    }
}

impl<'a> vstd::std_specs::convert::FromSpecImpl<&'a CreatorState> for GameMode {
    open spec fn obeys_from_spec() -> bool {
        true
    }

    open spec fn from_spec(state: &'a CreatorState) -> GameMode {
        state.spec_game_mode()
    }
}

} // verus!
