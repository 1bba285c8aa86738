//! The decision core of a creator-mode plugin for a Valence server.
//!
//! A player whose op level reaches the eligibility threshold gets a creator
//! state. Commands move the player between the four states, and every state
//! that is set writes its game mode and ability flags and is reported in the
//! chat. The plugin itself only carries values between the server and the
//! functions of this crate.

pub mod abilities;
pub mod effects;
pub mod laws;
pub mod message;
pub mod session;
pub mod state;
pub mod systems;
pub mod text;

pub use abilities::Abilities;
pub use effects::{EffectBundle, Permissions};
pub use message::{Message, NamedColor};
pub use session::{Session, Trigger};
pub use state::{CreatorState, GameMode};
pub use systems::ELIGIBILITY_THRESHOLD;
