use valence_creator::abilities::Abilities;
use valence_creator::effects::Permissions;
use valence_creator::message::{Message, NamedColor};
use valence_creator::state::{CreatorState, GameMode};
use valence_creator::systems::{
    handle_creator_state, handle_creator_state_selector, say_feur, set_creator_state,
    ELIGIBILITY_THRESHOLD,
};

fn dark_aqua(text: &str) -> Message {
    Message { text: String::from(text), color: NamedColor::DarkAqua }
}

#[test]
fn the_threshold_is_three() {
    assert_eq!(ELIGIBILITY_THRESHOLD, 3);
}

#[test]
fn below_the_threshold_there_is_no_state() {
    for level in 0..3u8 {
        assert_eq!(set_creator_state(None, level), None);
        assert_eq!(set_creator_state(Some(CreatorState::Build), level), None);
        assert_eq!(set_creator_state(Some(CreatorState::Config), level), None);
        assert_eq!(set_creator_state(Some(CreatorState::View), level), None);
        assert_eq!(set_creator_state(Some(CreatorState::Test), level), None);
    }
}

#[test]
fn from_the_threshold_on_a_player_without_state_gets_view() {
    for level in 3..=255u8 {
        assert_eq!(set_creator_state(None, level), Some(CreatorState::View));
    }
}

#[test]
fn from_the_threshold_on_a_player_keeps_the_state() {
    for level in 3..=255u8 {
        assert_eq!(set_creator_state(Some(CreatorState::Build), level), Some(CreatorState::Build));
        assert_eq!(set_creator_state(Some(CreatorState::Config), level), Some(CreatorState::Config));
        assert_eq!(set_creator_state(Some(CreatorState::View), level), Some(CreatorState::View));
        assert_eq!(set_creator_state(Some(CreatorState::Test), level), Some(CreatorState::Test));
    }
}

#[test]
fn a_command_sets_the_state_of_a_player_who_has_one() {
    let before = Some(CreatorState::View);
    assert_eq!(handle_creator_state_selector(before, "gamemode creative"), Some(CreatorState::Build));
    assert_eq!(handle_creator_state_selector(before, "gamemode spectator"), Some(CreatorState::View));
    assert_eq!(handle_creator_state_selector(before, "gamemode adventure"), Some(CreatorState::Config));
    assert_eq!(handle_creator_state_selector(before, "gamemode survival"), Some(CreatorState::Test));
    assert_eq!(handle_creator_state_selector(Some(CreatorState::Build), "fly"), Some(CreatorState::View));
}

#[test]
fn a_command_of_a_player_without_state_is_ignored() {
    assert_eq!(handle_creator_state_selector(None, "gamemode creative"), None);
    assert_eq!(handle_creator_state_selector(None, "gamemode adventure"), None);
    assert_eq!(handle_creator_state_selector(None, "fly"), None);
}

#[test]
fn a_state_that_is_set_is_applied_and_reported() {
    let mut sink = Permissions { game_mode: GameMode::Survival, abilities: Abilities { bits: 0 } };
    let report = handle_creator_state(&CreatorState::Build, &mut sink);
    assert_eq!(sink.game_mode, GameMode::Creative);
    assert_eq!(sink.abilities.bits, 0);
    assert_eq!(report, dark_aqua("CreatorState set to Build"));

    let report = handle_creator_state(&CreatorState::Config, &mut sink);
    assert_eq!(sink.game_mode, GameMode::Adventure);
    assert_eq!(sink.abilities.bits, 0x06);
    assert_eq!(report, dark_aqua("CreatorState set to Config"));

    let report = handle_creator_state(&CreatorState::View, &mut sink);
    assert_eq!(sink.game_mode, GameMode::Spectator);
    assert_eq!(sink.abilities.bits, 0x06);
    assert_eq!(report, dark_aqua("CreatorState set to View"));

    let report = handle_creator_state(&CreatorState::Test, &mut sink);
    assert_eq!(sink.game_mode, GameMode::Survival);
    assert_eq!(sink.abilities.bits, 0x06);
    assert_eq!(report, dark_aqua("CreatorState set to Test"));
}

#[test]
fn chat_below_the_threshold_is_echoed() {
    for level in 0..3u8 {
        assert_eq!(say_feur(level, "quoi"), vec![dark_aqua("quoi")]);
    }
}

#[test]
fn chat_from_the_threshold_on_is_echoed_and_greeted() {
    for level in 3..=255u8 {
        assert_eq!(say_feur(level, "quoi"), vec![dark_aqua("quoi"), dark_aqua("Hello, quoi!")]);
    }
}

#[test]
fn the_echo_of_the_greeting_is_no_greeting() {
    assert_eq!(say_feur(0, "Hello, quoi!"), vec![dark_aqua("Hello, quoi!")]);
    assert_eq!(
        say_feur(3, "Hello, quoi!"),
        vec![dark_aqua("Hello, quoi!"), dark_aqua("Hello, quoi!")]
    );
}

#[test]
fn empty_chat_is_echoed_too() {
    assert_eq!(say_feur(0, ""), vec![dark_aqua("")]);
    assert_eq!(say_feur(3, ""), vec![dark_aqua(""), dark_aqua("Hello, quoi!")]);
}
