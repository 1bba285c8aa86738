//! One connected player as the plugin sees it, and what each trigger does to
//! it.

use vstd::prelude::*;
use crate::effects::Permissions;
use crate::message::{mode_report, view_of, views, Message, MessageView};
use crate::state::CreatorState;
use crate::systems::{
    chat_reply, handle_creator_state, handle_creator_state_selector, say_feur, set_creator_state,
    state_after_command, state_after_op_level, ELIGIBILITY_THRESHOLD,
};

verus! {

/// A connected player: the op level that the server last reported, and the
/// creator state, which only an eligible player has.
#[derive(Clone, Copy, PartialEq, Eq, Debug)]
pub struct Session {
    pub privilege_level: u8,
    pub mode: Option<CreatorState>,
}

/// What the server reports to the plugin about one player.
#[derive(Clone, PartialEq, Eq, Debug)]
pub enum Trigger {
    /// The op level of the player is now this.
    PrivilegeChanged(u8),
    /// The player ran this command.
    Command(String),
    /// The player wrote this in the chat.
    Chat(String),
}

/// Where a trigger leaves a player: the session, the permissions, and the
/// messages sent on the way, in order.
pub struct Outcome {
    pub session: Session,
    pub sink: Permissions,
    pub messages: Seq<MessageView>,
}

/// The messages that an optional message amounts to: itself, or none.
pub open spec fn sent(message: Option<Message>) -> Seq<MessageView> {
    match message {
        Some(m) => seq![m@],
        None => seq![],
    }
}

impl Session {
    /// What holds of every session: below the threshold there is no creator
    /// state.
    pub open spec fn wf(self) -> bool {
        self.privilege_level < ELIGIBILITY_THRESHOLD ==> self.mode is None
    }

    /// The session of a player who has just connected.
    pub open spec fn initial() -> Session {
        Session { privilege_level: 0, mode: None }
    }

    /// The creator state has been set: its bundle is written and its report
    /// is sent. Without a creator state nothing happens.
    pub open spec fn after_mode_change(self, sink: Permissions) -> Outcome {
        match self.mode {
            Some(state) => Outcome {
                session: self,
                sink: state.spec_effect_bundle().applied_to(sink),
                messages: seq![mode_report(state)],
            },
            None => Outcome { session: self, sink, messages: seq![] },
        }
    }

    /// The op level has changed. A creator state that is attached by this
    /// counts as set; one that is removed, or kept, changes nothing else.
    pub open spec fn after_privilege_change(self, new_level: u8, sink: Permissions) -> Outcome {
        let next = Session {
            privilege_level: new_level,
            mode: state_after_op_level(self.mode, new_level),
        };
        if self.mode is None {
            next.after_mode_change(sink)
        } else {
            Outcome { session: next, sink, messages: seq![] }
        }
    }

    /// A command has come in. For a player with a creator state the state
    /// that the command selects is set, also where it is the state that the
    /// player had; for another player nothing happens.
    pub open spec fn after_command(self, command: Seq<char>, sink: Permissions) -> Outcome {
        let next = Session {
            privilege_level: self.privilege_level,
            mode: state_after_command(self.mode, command),
        };
        next.after_mode_change(sink)
    }

    /// A chat message has come in: it is answered, and nothing changes.
    pub open spec fn after_chat_message(self, text: Seq<char>, sink: Permissions) -> Outcome {
        Outcome { session: self, sink, messages: chat_reply(self.privilege_level, text) }
    }

    /// What one trigger does.
    pub open spec fn after(self, trigger: Trigger, sink: Permissions) -> Outcome {
        match trigger {
            Trigger::PrivilegeChanged(new_level) => self.after_privilege_change(new_level, sink),
            Trigger::Command(command) => self.after_command(command@, sink),
            Trigger::Chat(text) => self.after_chat_message(text@, sink),
        }
    }

    /// What a run of triggers does, the first of them first.
    pub open spec fn after_all(self, triggers: Seq<Trigger>, sink: Permissions) -> Outcome
        decreases triggers.len(),
    {
        if triggers.len() == 0 {
            Outcome { session: self, sink, messages: seq![] }
        } else {
            let before = self.after_all(triggers.drop_last(), sink);
            let last = before.session.after(triggers.last(), before.sink);
            Outcome {
                session: last.session,
                sink: last.sink,
                messages: before.messages + last.messages,
            }
        }
    }

    /// The session of a player who has just connected: op level 0 and no
    /// creator state.
    pub fn new() -> (session: Session)
        ensures
            session == Session::initial(),
            session.wf(),
    {
        Session { privilege_level: 0, mode: None }
    }

    /// Applies the creator state of this session, if it has one: writes the
    /// bundle of the state to `sink` and returns the report to send.
    pub fn on_mode_changed(&self, sink: &mut Permissions) -> (report: Option<Message>)
        ensures
            *final(sink) == self.after_mode_change(*old(sink)).sink,
            sent(report) == self.after_mode_change(*old(sink)).messages,
            view_of(report) == match self.mode {
                Some(state) => Some(mode_report(state)),
                None => None,
            },
    {
        match self.mode {
            Some(state) => {
                let report = handle_creator_state(&state, sink);
                Some(report)
            },
            None => None,
        }
    }

    /// Takes note of a new op level. Below the threshold the creator state
    /// is removed, and nothing is written or sent. At or above it a player
    /// without a creator state gets `View`, which is applied and reported;
    /// a player with one keeps it, and nothing is written or sent.
    pub fn on_privilege_changed(
        &mut self,
        new_level: u8,
        sink: &mut Permissions,
    ) -> (report: Option<Message>)
        ensures
            *final(self) == old(self).after_privilege_change(new_level, *old(sink)).session,
            *final(sink) == old(self).after_privilege_change(new_level, *old(sink)).sink,
            sent(report) == old(self).after_privilege_change(new_level, *old(sink)).messages,
            final(self).wf(),
            view_of(report) == if old(self).mode is None && new_level >= ELIGIBILITY_THRESHOLD {
                Some(mode_report(CreatorState::View))
            } else {
                None
            },
    {
        let attached = self.mode.is_none();
        self.privilege_level = new_level;
        self.mode = set_creator_state(self.mode, new_level);
        if attached {
            self.on_mode_changed(sink)
        } else {
            None
        }
    }

    /// Runs a command. A player with a creator state is put in the state
    /// that the command selects, and that state is applied and reported
    /// every time, whether or not it differs from the state before. The
    /// command of a player without a creator state is ignored.
    pub fn on_command(&mut self, command: &str, sink: &mut Permissions) -> (report: Option<Message>)
        ensures
            *final(self) == old(self).after_command(command@, *old(sink)).session,
            *final(sink) == old(self).after_command(command@, *old(sink)).sink,
            sent(report) == old(self).after_command(command@, *old(sink)).messages,
            old(self).wf() ==> final(self).wf(),
            view_of(report) == match old(self).mode {
                Some(_) => Some(mode_report(CreatorState::of_command(command@))),
                None => None,
            },
    {
        self.mode = handle_creator_state_selector(self.mode, command);
        self.on_mode_changed(sink)
    }

    /// Answers a chat message: its echo, and for a player at or above the
    /// threshold the greeting after it. The session is only read.
    pub fn on_chat_message(&self, text: &str) -> (reply: Vec<Message>)
        ensures
            views(reply@) == chat_reply(self.privilege_level, text@),
    {
        say_feur(self.privilege_level, text)
    }

    /// Handles one trigger and returns the messages to send, in order.
    pub fn handle(&mut self, trigger: &Trigger, sink: &mut Permissions) -> (messages: Vec<Message>)
        ensures
            *final(self) == old(self).after(*trigger, *old(sink)).session,
            *final(sink) == old(self).after(*trigger, *old(sink)).sink,
            views(messages@) == old(self).after(*trigger, *old(sink)).messages,
            old(self).wf() ==> final(self).wf(),
    {
        match trigger {
            Trigger::PrivilegeChanged(new_level) => {
                let report = self.on_privilege_changed(*new_level, sink);
                one_or_none(report)
            },
            Trigger::Command(command) => {
                let report = self.on_command(command.as_str(), sink);
                one_or_none(report)
            },
            Trigger::Chat(text) => self.on_chat_message(text.as_str()),
        }
    }
}

/// The list that holds an optional message, or nothing.
fn one_or_none(message: Option<Message>) -> (messages: Vec<Message>)
    ensures
        views(messages@) == sent(message),
{
    let mut messages: Vec<Message> = Vec::new();
    match message {
        Some(m) => {
            messages.push(m);
        },
        None => {},
    }
    messages
}

} // verus!
