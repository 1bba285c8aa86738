use valence::abilities::PlayerAbilitiesFlags;
use valence_creator::abilities::Abilities;
use valence_creator::effects::Permissions;
use valence_creator::message::{Message, NamedColor};
use valence_creator::session::{Session, Trigger};
use valence_creator::state::{CreatorState, GameMode};

fn aqua(text: &str) -> Message {
    Message { text: String::from(text), color: NamedColor::DarkAqua }
}

fn survival() -> Permissions {
    Permissions { game_mode: GameMode::Survival, abilities: Abilities { bits: 0 } }
}

fn obeys_rule(session: &Session) -> bool {
    session.privilege_level >= 3 || session.mode.is_none()
}

/// A session at level 3 with the given state, and the permissions that go
/// with a player who has not been in `Config`.
fn eligible(state: CreatorState) -> (Session, Permissions) {
    let session = Session { privilege_level: 3, mode: Some(state) };
    let sink = Permissions { game_mode: state.game_mode(), abilities: Abilities { bits: 0 } };
    (session, sink)
}

#[test]
fn a_new_session_has_no_state() {
    let session = Session::new();
    assert_eq!(session, Session { privilege_level: 0, mode: None });
    assert!(obeys_rule(&session));
}

#[test]
fn no_state_below_the_threshold_after_any_trigger() {
    let triggers = [
        Trigger::Command(String::from("gamemode creative")),
        Trigger::PrivilegeChanged(2),
        Trigger::Chat(String::from("hi")),
        Trigger::PrivilegeChanged(3),
        Trigger::Command(String::from("gamemode adventure")),
        Trigger::PrivilegeChanged(4),
        Trigger::Chat(String::from("hi")),
        Trigger::PrivilegeChanged(1),
        Trigger::Command(String::from("gamemode survival")),
        Trigger::PrivilegeChanged(0),
        Trigger::PrivilegeChanged(255),
        Trigger::Command(String::from("fly")),
        Trigger::PrivilegeChanged(2),
    ];
    let mut session = Session::new();
    let mut sink = survival();
    for trigger in triggers.iter() {
        session.handle(trigger, &mut sink);
        assert!(obeys_rule(&session));
        if session.privilege_level < 3 {
            assert_eq!(session.mode, None);
        }
    }
    assert_eq!(session, Session { privilege_level: 2, mode: None });
}

#[test]
fn raising_the_level_attaches_view_once() {
    let mut session = Session { privilege_level: 2, mode: None };
    let mut sink = survival();
    let report = session.on_privilege_changed(3, &mut sink);
    assert_eq!(session, Session { privilege_level: 3, mode: Some(CreatorState::View) });
    assert_eq!(sink.game_mode, GameMode::Spectator);
    assert_eq!(sink.abilities.bits, 0);
    assert_eq!(report, Some(aqua("CreatorState set to View")));

    let again = session.on_privilege_changed(4, &mut sink);
    assert_eq!(session, Session { privilege_level: 4, mode: Some(CreatorState::View) });
    assert_eq!(sink.game_mode, GameMode::Spectator);
    assert_eq!(again, None);
}

#[test]
fn raising_the_level_keeps_a_state_that_is_there() {
    let (mut session, mut sink) = eligible(CreatorState::Build);
    let report = session.on_privilege_changed(200, &mut sink);
    assert_eq!(session, Session { privilege_level: 200, mode: Some(CreatorState::Build) });
    assert_eq!(sink.game_mode, GameMode::Creative);
    assert_eq!(report, None);
}

#[test]
fn a_level_that_stays_below_the_threshold_attaches_nothing() {
    let mut session = Session::new();
    let mut sink = survival();
    for level in [1u8, 2, 0, 2] {
        let report = session.on_privilege_changed(level, &mut sink);
        assert_eq!(session, Session { privilege_level: level, mode: None });
        assert_eq!(sink, survival());
        assert_eq!(report, None);
    }
}

#[test]
fn lowering_the_level_removes_the_state_and_raising_it_restarts_with_view() {
    let (mut session, mut sink) = eligible(CreatorState::Build);
    let before = sink;
    let report = session.on_privilege_changed(2, &mut sink);
    assert_eq!(session, Session { privilege_level: 2, mode: None });
    assert_eq!(sink, before);
    assert_eq!(report, None);

    let report = session.on_privilege_changed(3, &mut sink);
    assert_eq!(session, Session { privilege_level: 3, mode: Some(CreatorState::View) });
    assert_eq!(sink.game_mode, GameMode::Spectator);
    assert_eq!(report, Some(aqua("CreatorState set to View")));
}

#[test]
fn lowering_the_level_of_a_player_without_state_changes_nothing() {
    let mut session = Session { privilege_level: 3, mode: None };
    let mut sink = survival();
    let report = session.on_privilege_changed(0, &mut sink);
    assert_eq!(session, Session { privilege_level: 0, mode: None });
    assert_eq!(sink, survival());
    assert_eq!(report, None);
}

#[test]
fn gamemode_creative_yields_build_and_sets_no_flag() {
    for state in [CreatorState::Build, CreatorState::Config, CreatorState::View, CreatorState::Test] {
        let (mut session, mut sink) = eligible(state);
        let report = session.on_command("gamemode creative", &mut sink);
        assert_eq!(session.mode, Some(CreatorState::Build));
        assert_eq!(sink.game_mode, GameMode::Creative);
        assert_eq!(sink.abilities.bits, 0);
        let seen = PlayerAbilitiesFlags::from(sink.abilities.bits);
        assert!(!seen.allow_flying());
        assert!(!seen.flying());
        assert_eq!(report, Some(aqua("CreatorState set to Build")));
    }
}

#[test]
fn gamemode_adventure_yields_config_with_both_flying_flags() {
    let (mut session, mut sink) = eligible(CreatorState::View);
    let report = session.on_command("gamemode adventure", &mut sink);
    assert_eq!(session, Session { privilege_level: 3, mode: Some(CreatorState::Config) });
    assert_eq!(sink.game_mode, GameMode::Adventure);
    let seen = PlayerAbilitiesFlags::from(sink.abilities.bits);
    assert!(seen.allow_flying());
    assert!(seen.flying());
    assert_eq!(sink.abilities.bits, 0x06);
    assert_eq!(report, Some(aqua("CreatorState set to Config")));
}

#[test]
fn gamemode_survival_yields_test() {
    let (mut session, mut sink) = eligible(CreatorState::View);
    let report = session.on_command("gamemode survival", &mut sink);
    assert_eq!(session.mode, Some(CreatorState::Test));
    assert_eq!(sink.game_mode, GameMode::Survival);
    assert_eq!(sink.abilities.bits, 0);
    assert_eq!(report, Some(aqua("CreatorState set to Test")));
}

#[test]
fn gamemode_spectator_yields_view() {
    let (mut session, mut sink) = eligible(CreatorState::Build);
    let report = session.on_command("gamemode spectator", &mut sink);
    assert_eq!(session.mode, Some(CreatorState::View));
    assert_eq!(sink.game_mode, GameMode::Spectator);
    assert_eq!(sink.abilities.bits, 0);
    assert_eq!(report, Some(aqua("CreatorState set to View")));
}

#[test]
fn an_unknown_command_yields_view_and_sets_no_flag() {
    let (mut session, mut sink) = eligible(CreatorState::Build);
    let report = session.on_command("fly", &mut sink);
    assert_eq!(session.mode, Some(CreatorState::View));
    assert_eq!(sink.game_mode, GameMode::Spectator);
    assert_eq!(sink.abilities.bits, 0);
    let seen = PlayerAbilitiesFlags::from(sink.abilities.bits);
    assert!(!seen.allow_flying());
    assert!(!seen.flying());
    assert_eq!(report, Some(aqua("CreatorState set to View")));
}

#[test]
fn the_same_command_twice_is_applied_and_reported_twice() {
    let (mut session, mut sink) = eligible(CreatorState::View);
    let first = session.on_command("gamemode adventure", &mut sink);
    assert_eq!(first, Some(aqua("CreatorState set to Config")));
    assert_eq!(sink.abilities.bits, 0x06);

    // Something else takes the flags and the game mode away in between: the
    // second run writes them again.
    sink = survival();
    let second = session.on_command("gamemode adventure", &mut sink);
    assert_eq!(second, Some(aqua("CreatorState set to Config")));
    assert_eq!(session.mode, Some(CreatorState::Config));
    assert_eq!(sink.game_mode, GameMode::Adventure);
    assert_eq!(sink.abilities.bits, 0x06);
}

#[test]
fn the_same_command_twice_sends_two_messages() {
    let (mut session, mut sink) = eligible(CreatorState::View);
    let mut sent: Vec<Message> = Vec::new();
    for _ in 0..2 {
        let trigger = Trigger::Command(String::from("gamemode creative"));
        sent.extend(session.handle(&trigger, &mut sink));
    }
    assert_eq!(
        sent,
        vec![aqua("CreatorState set to Build"), aqua("CreatorState set to Build")]
    );
    assert_eq!(session.mode, Some(CreatorState::Build));
}

#[test]
fn a_command_without_state_is_ignored() {
    for level in [0u8, 2, 3, 255] {
        let mut session = Session { privilege_level: level, mode: None };
        let mut sink = survival();
        let report = session.on_command("gamemode creative", &mut sink);
        assert_eq!(session, Session { privilege_level: level, mode: None });
        assert_eq!(sink, survival());
        assert_eq!(report, None);
    }
}

#[test]
fn the_flying_flags_stay_after_config_is_left() {
    let (mut session, mut sink) = eligible(CreatorState::View);
    session.on_command("gamemode adventure", &mut sink);
    session.on_command("gamemode creative", &mut sink);
    assert_eq!(session.mode, Some(CreatorState::Build));
    assert_eq!(sink.game_mode, GameMode::Creative);
    assert_eq!(sink.abilities.bits, 0x06);
    session.on_privilege_changed(0, &mut sink);
    assert_eq!(session.mode, None);
    assert_eq!(sink.game_mode, GameMode::Creative);
    assert_eq!(sink.abilities.bits, 0x06);
}

#[test]
fn mode_changed_applies_the_state_of_the_session() {
    let session = Session { privilege_level: 3, mode: Some(CreatorState::Config) };
    let mut sink = survival();
    let report = session.on_mode_changed(&mut sink);
    assert_eq!(sink.game_mode, GameMode::Adventure);
    assert_eq!(sink.abilities.bits, 0x06);
    assert_eq!(report, Some(aqua("CreatorState set to Config")));
}

#[test]
fn mode_changed_without_state_does_nothing() {
    let session = Session { privilege_level: 3, mode: None };
    let mut sink = survival();
    let report = session.on_mode_changed(&mut sink);
    assert_eq!(sink, survival());
    assert_eq!(report, None);
}

#[test]
fn chat_never_changes_the_session() {
    for level in [0u8, 2, 3, 4, 255] {
        for mode in [None, Some(CreatorState::Build), Some(CreatorState::Config)] {
            let mut session = Session { privilege_level: level, mode };
            let mut sink = survival();
            let direct = session.on_chat_message("quoi");
            let handled = session.handle(&Trigger::Chat(String::from("quoi")), &mut sink);
            assert_eq!(session, Session { privilege_level: level, mode });
            assert_eq!(sink, survival());
            assert_eq!(direct, handled);
            if level >= 3 {
                assert_eq!(direct, vec![aqua("quoi"), aqua("Hello, quoi!")]);
            } else {
                assert_eq!(direct, vec![aqua("quoi")]);
            }
        }
    }
}

#[test]
fn handle_does_what_the_single_operations_do() {
    let mut session = Session::new();
    let mut sink = survival();
    let sent = session.handle(&Trigger::PrivilegeChanged(3), &mut sink);
    assert_eq!(sent, vec![aqua("CreatorState set to View")]);
    assert_eq!(session, Session { privilege_level: 3, mode: Some(CreatorState::View) });
    assert_eq!(sink.game_mode, GameMode::Spectator);

    let sent = session.handle(&Trigger::Command(String::from("gamemode adventure")), &mut sink);
    assert_eq!(sent, vec![aqua("CreatorState set to Config")]);
    assert_eq!(session.mode, Some(CreatorState::Config));
    assert_eq!(sink.game_mode, GameMode::Adventure);
    assert_eq!(sink.abilities.bits, 0x06);

    let sent = session.handle(&Trigger::PrivilegeChanged(1), &mut sink);
    assert_eq!(sent, Vec::<Message>::new());
    assert_eq!(session, Session { privilege_level: 1, mode: None });
    assert_eq!(sink.game_mode, GameMode::Adventure);

    let sent = session.handle(&Trigger::Command(String::from("gamemode creative")), &mut sink);
    assert_eq!(sent, Vec::<Message>::new());
    assert_eq!(session, Session { privilege_level: 1, mode: None });
}
