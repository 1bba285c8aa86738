//! The messages that the plugin sends to a player.

use vstd::prelude::*;
use crate::state::CreatorState;

verus! {

/// The sixteen named colours of chat text.
#[derive(Clone, Copy, PartialEq, Eq, Debug, Structural)]
pub enum NamedColor {
    Black,
    DarkBlue,
    DarkGreen,
    DarkAqua,
    DarkRed,
    DarkPurple,
    Gold,
    Gray,
    DarkGray,
    Blue,
    Green,
    Aqua,
    Red,
    LightPurple,
    Yellow,
    White,
}

/// A chat message for one player: its text and the colour it is shown in.
#[derive(Clone, PartialEq, Eq, Debug)]
pub struct Message {
    pub text: String,
    pub color: NamedColor,
}

/// A message as the contracts see it: the characters of its text and its
/// colour.
pub struct MessageView {
    pub text: Seq<char>,
    pub color: NamedColor,
}

impl View for Message {
    type V = MessageView;

    open spec fn view(&self) -> MessageView {
        MessageView { text: self.text@, color: self.color }
    }
}

/// The views of a list of messages, in order.
pub open spec fn views(messages: Seq<Message>) -> Seq<MessageView> {
    messages.map_values(|m: Message| m@)
}

/// The view of a message that may be absent.
pub open spec fn view_of(message: Option<Message>) -> Option<MessageView> {
    match message {
        Some(m) => Some(m@),
        None => None,
    }
}

/// The report of a new creator state: `CreatorState set to ` and the name of
/// the state, in dark aqua.
pub open spec fn mode_report(state: CreatorState) -> MessageView {
    MessageView {
        text: "CreatorState set to "@ + state.spec_name(),
        color: NamedColor::DarkAqua,
    }
}

/// The greeting for a privileged player, in dark aqua.
pub open spec fn greeting() -> MessageView {
    MessageView { text: "Hello, quoi!"@, color: NamedColor::DarkAqua }
}

/// The echo of a chat message: its text as it came, in dark aqua.
pub open spec fn echo(text: Seq<char>) -> MessageView {
    MessageView { text, color: NamedColor::DarkAqua }
}

impl Message {
    /// The report that a player gets when the creator state has been set.
    pub fn mode_report(state: &CreatorState) -> (message: Message)
        ensures
            message@ == mode_report(*state),
    {
        let mut text = String::from_str("CreatorState set to ");
        let name = state.to_string();
        text.append(name.as_str());
        Message { text, color: NamedColor::DarkAqua }
    }

    /// The greeting for a privileged player.
    pub fn greeting() -> (message: Message)
        ensures
            message@ == greeting(),
    {
        Message { text: String::from_str("Hello, quoi!"), color: NamedColor::DarkAqua }
    }

    /// The echo of a chat message.
    pub fn echo(text: &str) -> (message: Message)
        ensures
            message@ == echo(text@),
    {
        Message { text: String::from_str(text), color: NamedColor::DarkAqua }
    }
}

/// The text of each report, written out.
pub proof fn lemma_mode_report_text(state: CreatorState)
    ensures
        mode_report(state).text == match state {
            CreatorState::Build => "CreatorState set to Build"@,
            CreatorState::Config => "CreatorState set to Config"@,
            CreatorState::View => "CreatorState set to View"@,
            CreatorState::Test => "CreatorState set to Test"@,
        },
{
    reveal_strlit("CreatorState set to ");
    reveal_strlit("Build");
    reveal_strlit("Config");
    reveal_strlit("View");
    reveal_strlit("Test");
    reveal_strlit("CreatorState set to Build");
    reveal_strlit("CreatorState set to Config");
    reveal_strlit("CreatorState set to View");
    reveal_strlit("CreatorState set to Test");
    assert(("CreatorState set to "@ + "Build"@) =~= "CreatorState set to Build"@);
    assert(("CreatorState set to "@ + "Config"@) =~= "CreatorState set to Config"@);
    assert(("CreatorState set to "@ + "View"@) =~= "CreatorState set to View"@);
    assert(("CreatorState set to "@ + "Test"@) =~= "CreatorState set to Test"@);
}

} // verus!
