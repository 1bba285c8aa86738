//! What a creator state does to the permissions of a player.

use vstd::prelude::*;
use crate::abilities::{lemma_with_allow_flying, lemma_with_flying, Abilities};
use crate::state::{CreatorState, GameMode};

verus! {

/// The permissions that the server holds for one player and that a change of
/// creator state writes: the game mode and the ability flags.
#[derive(Clone, Copy, PartialEq, Eq, Debug, Structural)]
pub struct Permissions {
    pub game_mode: GameMode,
    pub abilities: Abilities,
}

/// The assignments that belong to one creator state. The game mode is always
/// assigned. A flag that is `true` here is switched on; a flag that is
/// `false` here is not touched, so it keeps whatever value it had.
#[derive(Clone, Copy, PartialEq, Eq, Debug, Structural)]
pub struct EffectBundle {
    pub game_mode: GameMode,
    pub allow_flying: bool,
    pub flying: bool,
}

impl CreatorState {
    /// The bundle of each state: its game mode, and for `Config` alone the
    /// two flying flags.
    pub open spec fn spec_effect_bundle(self) -> EffectBundle {
        EffectBundle {
            game_mode: self.spec_game_mode(),
            allow_flying: self == CreatorState::Config,
            flying: self == CreatorState::Config,
        }
    }

    /// The bundle that entering this state applies.
    pub fn effect_bundle(&self) -> (bundle: EffectBundle)
        ensures
            bundle == self.spec_effect_bundle(),
    {
        match self {
            CreatorState::Config => EffectBundle {
                game_mode: self.game_mode(),
                allow_flying: true,
                flying: true,
            },
            _ => EffectBundle { game_mode: self.game_mode(), allow_flying: false, flying: false },
        }
    }
}

impl EffectBundle {
    /// The ability flags after this bundle: "may fly" is switched on first,
    /// then "is flying", each only where the bundle names it.
    pub open spec fn abilities_after(self, before: Abilities) -> Abilities {
        let allowed = if self.allow_flying {
            before.with_allow_flying(true)
        } else {
            before
        };
        if self.flying {
            allowed.with_flying(true)
        } else {
            allowed
        }
    }

    /// The permissions after this bundle.
    pub open spec fn applied_to(self, before: Permissions) -> Permissions {
        Permissions {
            game_mode: self.game_mode,
            abilities: self.abilities_after(before.abilities),
        }
    }

    /// Writes this bundle to the permissions of a player: the game mode, and
    /// each flag that the bundle names. Every other flag stays as it was.
    pub fn apply(&self, sink: &mut Permissions)
        ensures
            *final(sink) == self.applied_to(*old(sink)),
            final(sink).game_mode == self.game_mode,
            final(sink).abilities.allow_flying() == (self.allow_flying
                || old(sink).abilities.allow_flying()),
            final(sink).abilities.flying() == (self.flying || old(sink).abilities.flying()),
            final(sink).abilities.others() == old(sink).abilities.others(),
            !self.allow_flying && !self.flying ==> final(sink).abilities == old(sink).abilities,
    {
        proof {
            lemma_with_allow_flying(sink.abilities, true);
            lemma_with_flying(sink.abilities, true);
            lemma_with_flying(sink.abilities.with_allow_flying(true), true);
        }
        sink.game_mode = self.game_mode;
        if self.allow_flying {
            sink.abilities.set_allow_flying(true);
        }
        if self.flying {
            sink.abilities.set_flying(true);
        }
    }
}

/// What the bundle of a state does to the ability flags: `Config` switches
/// on "may fly" and "is flying" and leaves the other flags alone; every other
/// state leaves all of them alone. The game mode is that of the state.
pub proof fn lemma_bundle_applied(state: CreatorState, before: Permissions)
    ensures
        state.spec_effect_bundle().applied_to(before).game_mode == state.spec_game_mode(),
        state != CreatorState::Config ==> state.spec_effect_bundle().applied_to(before).abilities
            == before.abilities,
        state == CreatorState::Config ==> {
            let after = state.spec_effect_bundle().applied_to(before).abilities;
            &&& after.allow_flying()
            &&& after.flying()
            &&& after.others() == before.abilities.others()
        },
{
    lemma_with_allow_flying(before.abilities, true);
    lemma_with_flying(before.abilities.with_allow_flying(true), true);
}

/// Applying the bundle of a state a second time changes nothing more.
pub proof fn lemma_bundle_applied_twice(state: CreatorState, before: Permissions)
    ensures
        state.spec_effect_bundle().applied_to(state.spec_effect_bundle().applied_to(before))
            == state.spec_effect_bundle().applied_to(before),
{
    let once = state.spec_effect_bundle().applied_to(before);
    lemma_bundle_applied(state, before);
    lemma_with_allow_flying(once.abilities, true);
    lemma_with_flying(once.abilities.with_allow_flying(true), true);
}

} // verus!
