//! The decisions of the four systems of the plugin, on plain values. The
//! plugin reads the components of a player, asks one of these functions, and
//! writes back what it answers.

use vstd::prelude::*;
use crate::effects::Permissions;
use crate::message::{echo, greeting, mode_report, views, Message, MessageView};
use crate::state::CreatorState;

verus! {

/// The op level from which on a player has a creator state.
pub const ELIGIBILITY_THRESHOLD: u8 = 3;

/// The creator state of a player after the op level has changed to
/// `op_level`: none below the threshold; at or above it the state that the
/// player had, or `View` for a player who had none.
pub open spec fn state_after_op_level(
    state: Option<CreatorState>,
    op_level: u8,
) -> Option<CreatorState> {
    if op_level < ELIGIBILITY_THRESHOLD {
        None
    } else if state is None {
        Some(CreatorState::View)
    } else {
        state
    }
}

/// The creator state of a player after a command: the state that the command
/// selects, for a player who has one; a player without one stays without.
pub open spec fn state_after_command(
    state: Option<CreatorState>,
    command: Seq<char>,
) -> Option<CreatorState> {
    match state {
        Some(_) => Some(CreatorState::of_command(command)),
        None => None,
    }
}

/// The messages that answer a chat message: its echo, and after it the
/// greeting for a player at or above the threshold.
pub open spec fn chat_reply(op_level: u8, text: Seq<char>) -> Seq<MessageView> {
    if op_level >= ELIGIBILITY_THRESHOLD {
        seq![echo(text), greeting()]
    } else {
        seq![echo(text)]
    }
}

/// Decides, when the op level of a player has changed, which creator state
/// the player has from now on.
pub fn set_creator_state(
    state: Option<CreatorState>,
    op_level: u8,
) -> (next: Option<CreatorState>)
    ensures
        next == state_after_op_level(state, op_level),
{
    if op_level < ELIGIBILITY_THRESHOLD {
        None
    } else {
        match state {
            Some(current) => Some(current),
            None => Some(CreatorState::default()),
        }
    }
}

/// Decides which creator state a command leaves a player in. The command is
/// looked at only for a player who has a creator state.
pub fn handle_creator_state_selector(
    state: Option<CreatorState>,
    command: &str,
) -> (next: Option<CreatorState>)
    ensures
        next == state_after_command(state, command@),
{
    match state {
        Some(_) => Some(CreatorState::from_command(command)),
        None => None,
    }
}

/// Applies a creator state that has just been set: writes its bundle to the
/// permissions of the player and returns the report to send. The game mode
/// becomes that of the state. `Config` switches on "may fly" and "is flying";
/// no other state touches a flag, so flags that `Config` has set stay set
/// when it is left.
pub fn handle_creator_state(state: &CreatorState, sink: &mut Permissions) -> (report: Message)
    ensures
        *final(sink) == state.spec_effect_bundle().applied_to(*old(sink)),
        final(sink).game_mode == state.spec_game_mode(),
        *state == CreatorState::Config ==> final(sink).abilities.allow_flying(),
        *state == CreatorState::Config ==> final(sink).abilities.flying(),
        *state != CreatorState::Config ==> final(sink).abilities == old(sink).abilities,
        final(sink).abilities.others() == old(sink).abilities.others(),
        report@ == mode_report(*state),
{
    state.effect_bundle().apply(sink);
    Message::mode_report(state)
}

/// Answers a chat message. The creator state plays no part in it.
pub fn say_feur(op_level: u8, text: &str) -> (reply: Vec<Message>)
    ensures
        views(reply@) == chat_reply(op_level, text@),
{
    let mut reply: Vec<Message> = Vec::new();
    reply.push(Message::echo(text));
    if op_level >= ELIGIBILITY_THRESHOLD {
        reply.push(Message::greeting());
    }
    reply
}

} // verus!
