//! What holds of the sessions of the plugin, whatever the server reports.

use vstd::prelude::*;
use crate::effects::{lemma_bundle_applied, lemma_bundle_applied_twice, Permissions};
use crate::message::{echo, greeting, lemma_mode_report_text, mode_report, NamedColor};
use crate::session::{Session, Trigger};
use crate::state::{lemma_command_table, CreatorState, GameMode};
use crate::systems::ELIGIBILITY_THRESHOLD;

verus! {

/// No trigger breaks the rule of the sessions: a session that has no creator
/// state below the threshold has none below it afterwards either.
pub proof fn law_trigger_keeps_rule(session: Session, trigger: Trigger, sink: Permissions)
    requires
        session.wf(),
    ensures
        session.after(trigger, sink).session.wf(),
{
}

/// Every session that the plugin can reach obeys the rule: from a player who
/// has just connected, after any run of triggers, an op level below the
/// threshold means that there is no creator state.
pub proof fn law_no_mode_below_threshold(triggers: Seq<Trigger>, sink: Permissions)
    ensures
        Session::initial().after_all(triggers, sink).session.wf(),
        Session::initial().after_all(triggers, sink).session.privilege_level
            < ELIGIBILITY_THRESHOLD ==> Session::initial().after_all(
            triggers,
            sink,
        ).session.mode is None,
    decreases triggers.len(),
{
    if triggers.len() > 0 {
        law_no_mode_below_threshold(triggers.drop_last(), sink);
        let before = Session::initial().after_all(triggers.drop_last(), sink);
        law_trigger_keeps_rule(before.session, triggers.last(), before.sink);
    }
}

/// Raising the op level of a player without a creator state from below the
/// threshold to it or above attaches `View`, applies it and reports it. That
/// happens once: a further report of a level at or above the threshold
/// attaches nothing, writes nothing and sends nothing.
pub proof fn law_raise_attaches_view_once(
    session: Session,
    sink: Permissions,
    raised: u8,
    again: u8,
)
    requires
        session.privilege_level < ELIGIBILITY_THRESHOLD,
        session.mode is None,
        raised >= ELIGIBILITY_THRESHOLD,
        again >= ELIGIBILITY_THRESHOLD,
    ensures
        ({
            let first = session.after_privilege_change(raised, sink);
            let second = first.session.after_privilege_change(again, first.sink);
            &&& first.session.mode == Some(CreatorState::View)
            &&& first.sink == CreatorState::View.spec_effect_bundle().applied_to(sink)
            &&& first.messages == seq![mode_report(CreatorState::View)]
            &&& second.session.mode == Some(CreatorState::View)
            &&& second.sink == first.sink
            &&& second.messages.len() == 0
        }),
{
}

/// A player who has a creator state keeps it, whichever it is, when a level
/// at or above the threshold is reported: nothing is attached over it.
pub proof fn law_raise_keeps_state(session: Session, sink: Permissions, raised: u8)
    requires
        session.mode is Some,
        raised >= ELIGIBILITY_THRESHOLD,
    ensures
        session.after_privilege_change(raised, sink).session.mode == session.mode,
        session.after_privilege_change(raised, sink).sink == sink,
        session.after_privilege_change(raised, sink).messages.len() == 0,
{
}

/// Lowering the op level from the threshold or above to below it removes the
/// creator state, if there is one, and writes and sends nothing. Raising it
/// again attaches `View`, whatever the state was before: it is not
/// remembered.
pub proof fn law_lower_removes_and_raise_restarts(
    session: Session,
    sink: Permissions,
    lowered: u8,
    raised: u8,
)
    requires
        session.privilege_level >= ELIGIBILITY_THRESHOLD,
        lowered < ELIGIBILITY_THRESHOLD,
        raised >= ELIGIBILITY_THRESHOLD,
    ensures
        ({
            let low = session.after_privilege_change(lowered, sink);
            let high = low.session.after_privilege_change(raised, low.sink);
            &&& low.session.mode is None
            &&& low.sink == sink
            &&& low.messages.len() == 0
            &&& high.session.mode == Some(CreatorState::View)
            &&& high.sink == CreatorState::View.spec_effect_bundle().applied_to(sink)
            &&& high.messages == seq![mode_report(CreatorState::View)]
        }),
{
}

/// The same command twice in a row, to a player who has a creator state, is
/// carried out twice: each time the selected state is set, its bundle is
/// written and its report is sent, so that two equal reports go out. The
/// second writing finds nothing left to change.
pub proof fn law_command_twice_applies_twice(
    session: Session,
    sink: Permissions,
    command: Seq<char>,
)
    requires
        session.mode is Some,
    ensures
        ({
            let selected = CreatorState::of_command(command);
            let first = session.after_command(command, sink);
            let second = first.session.after_command(command, first.sink);
            &&& first.session.mode == Some(selected)
            &&& first.sink == selected.spec_effect_bundle().applied_to(sink)
            &&& first.messages == seq![mode_report(selected)]
            &&& second.session.mode == Some(selected)
            &&& second.sink == selected.spec_effect_bundle().applied_to(first.sink)
            &&& second.messages == seq![mode_report(selected)]
            &&& second.sink == first.sink
        }),
{
    let selected = CreatorState::of_command(command);
    lemma_bundle_applied_twice(selected, sink);
}

/// Two equal commands as one run of triggers send two reports.
pub proof fn law_command_twice_reports_twice(session: Session, sink: Permissions, command: String)
    requires
        session.mode is Some,
    ensures
        session.after_all(
            seq![Trigger::Command(command), Trigger::Command(command)],
            sink,
        ).messages == seq![
            mode_report(CreatorState::of_command(command@)),
            mode_report(CreatorState::of_command(command@)),
        ],
{
    reveal_with_fuel(Session::after_all, 3);
    let report = mode_report(CreatorState::of_command(command@));
    let one = seq![Trigger::Command(command)];
    let two = seq![Trigger::Command(command), Trigger::Command(command)];
    assert(one.drop_last() =~= Seq::<Trigger>::empty());
    assert(session.after_all(one, sink).messages =~= seq![report]);
    assert(two.drop_last() =~= one);
    assert(session.after_all(two, sink).messages =~= seq![report, report]);
}

/// `gamemode creative` puts every player who has a creator state in `Build`:
/// the game mode becomes creative, no ability flag changes, and the report
/// reads `CreatorState set to Build`.
pub proof fn law_gamemode_creative(session: Session, sink: Permissions)
    requires
        session.mode is Some,
    ensures
        ({
            let after = session.after_command("gamemode creative"@, sink);
            &&& after.session.mode == Some(CreatorState::Build)
            &&& after.session.privilege_level == session.privilege_level
            &&& after.sink.game_mode == GameMode::Creative
            &&& after.sink.abilities == sink.abilities
            &&& after.messages.len() == 1
            &&& after.messages[0].text == "CreatorState set to Build"@
            &&& after.messages[0].color == NamedColor::DarkAqua
        }),
{
    lemma_command_table();
    lemma_mode_report_text(CreatorState::Build);
    lemma_bundle_applied(CreatorState::Build, sink);
}

/// `gamemode adventure` puts every player who has a creator state in
/// `Config`: the game mode becomes adventure, the player may fly and is
/// flying, the other flags stay, and the report reads
/// `CreatorState set to Config`.
pub proof fn law_gamemode_adventure(session: Session, sink: Permissions)
    requires
        session.mode is Some,
    ensures
        ({
            let after = session.after_command("gamemode adventure"@, sink);
            &&& after.session.mode == Some(CreatorState::Config)
            &&& after.session.privilege_level == session.privilege_level
            &&& after.sink.game_mode == GameMode::Adventure
            &&& after.sink.abilities.allow_flying()
            &&& after.sink.abilities.flying()
            &&& after.sink.abilities.others() == sink.abilities.others()
            &&& after.messages.len() == 1
            &&& after.messages[0].text == "CreatorState set to Config"@
            &&& after.messages[0].color == NamedColor::DarkAqua
        }),
{
    lemma_command_table();
    lemma_mode_report_text(CreatorState::Config);
    lemma_bundle_applied(CreatorState::Config, sink);
}

/// A text that is none of the four commands, such as `fly`, puts every
/// player who has a creator state in `View`: the game mode becomes spectator,
/// no ability flag changes, and the report reads `CreatorState set to View`.
pub proof fn law_unknown_command(session: Session, sink: Permissions, command: Seq<char>)
    requires
        session.mode is Some,
        command == "fly"@ || (command != "gamemode creative"@
            && command != "gamemode spectator"@
            && command != "gamemode adventure"@
            && command != "gamemode survival"@),
    ensures
        ({
            let after = session.after_command(command, sink);
            &&& after.session.mode == Some(CreatorState::View)
            &&& after.session.privilege_level == session.privilege_level
            &&& after.sink.game_mode == GameMode::Spectator
            &&& after.sink.abilities == sink.abilities
            &&& after.messages.len() == 1
            &&& after.messages[0].text == "CreatorState set to View"@
            &&& after.messages[0].color == NamedColor::DarkAqua
        }),
{
    reveal_strlit("fly");
    reveal_strlit("gamemode creative");
    reveal_strlit("gamemode spectator");
    reveal_strlit("gamemode adventure");
    reveal_strlit("gamemode survival");
    // `fly` has three characters, the four commands have 17 or 18.
    assert("fly"@.len() == 3);
    assert("gamemode creative"@.len() == 17 && "gamemode survival"@.len() == 17);
    assert("gamemode spectator"@.len() == 18 && "gamemode adventure"@.len() == 18);
    lemma_mode_report_text(CreatorState::View);
    lemma_bundle_applied(CreatorState::View, sink);
}

/// The flying flags that `Config` has switched on are still on after the
/// next command, whichever state it selects: leaving `Config` clears nothing.
pub proof fn law_flying_flags_outlive_config(
    session: Session,
    sink: Permissions,
    command: Seq<char>,
)
    requires
        session.mode is Some,
    ensures
        ({
            let config = session.after_command("gamemode adventure"@, sink);
            let next = config.session.after_command(command, config.sink);
            &&& next.session.mode == Some(CreatorState::of_command(command))
            &&& next.sink.game_mode == CreatorState::of_command(command).spec_game_mode()
            &&& next.sink.abilities.allow_flying()
            &&& next.sink.abilities.flying()
            &&& next.sink.abilities == config.sink.abilities
        }),
{
    lemma_command_table();
    lemma_bundle_applied(CreatorState::Config, sink);
    let config = session.after_command("gamemode adventure"@, sink);
    lemma_bundle_applied(CreatorState::of_command(command), config.sink);
    lemma_bundle_applied_twice(CreatorState::Config, sink);
}

/// A command of a player without a creator state is ignored: nothing is set,
/// written or sent.
pub proof fn law_command_without_state(session: Session, sink: Permissions, command: Seq<char>)
    requires
        session.mode is None,
    ensures
        session.after_command(command, sink).session == session,
        session.after_command(command, sink).sink == sink,
        session.after_command(command, sink).messages.len() == 0,
{
}

/// A chat message never touches the creator state, the op level or the
/// permissions, at any op level. Its answer is the echo alone below the
/// threshold, and the echo followed by the greeting at or above it.
pub proof fn law_chat_changes_nothing(session: Session, sink: Permissions, text: Seq<char>)
    ensures
        session.after_chat_message(text, sink).session == session,
        session.after_chat_message(text, sink).sink == sink,
        session.privilege_level < ELIGIBILITY_THRESHOLD
            ==> session.after_chat_message(text, sink).messages == seq![echo(text)],
        session.privilege_level >= ELIGIBILITY_THRESHOLD
            ==> session.after_chat_message(text, sink).messages == seq![echo(text), greeting()],
{
}

} // verus!
