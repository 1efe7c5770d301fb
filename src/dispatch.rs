use vstd::prelude::*;

use crate::ids::id_set;
use crate::session::{SessionError, SessionManager};
use crate::voice::muted_after_mute_all;

verus! {

/// The emergency symbol: a red circle.
pub const EMERGENCY_SYMBOL: char = '\u{1F534}';

/// The dead symbol: a skull.
pub const DEAD_SYMBOL: char = '\u{1F480}';

/// What a reaction's symbol means on the control message.
#[derive(Debug, Clone, Copy, PartialEq, Eq, Structural)]
pub enum Symbol {
    Emergency,
    Dead,
    Other,
}

pub open spec fn symbol_of(name: Seq<char>) -> Symbol {
    if name == seq![EMERGENCY_SYMBOL] {
        Symbol::Emergency
    } else if name == seq![DEAD_SYMBOL] {
        Symbol::Dead
    } else {
        Symbol::Other
    }
}

/// Classifies a unicode reaction by its name.
pub fn classify_symbol(name: &Vec<char>) -> (r: Symbol)
    ensures
        r == symbol_of(name@),
{
    if name.len() != 1 {
        assert(name@ != seq![EMERGENCY_SYMBOL]);
        assert(name@ != seq![DEAD_SYMBOL]);
        return Symbol::Other;
    }
    let c = name[0];
    assert(name@ =~= seq![c]);
    if c == EMERGENCY_SYMBOL {
        Symbol::Emergency
    } else if c == DEAD_SYMBOL {
        Symbol::Dead
    } else {
        assert(name@ != seq![EMERGENCY_SYMBOL]);
        assert(name@ != seq![DEAD_SYMBOL]);
        Symbol::Other
    }
}

/// A reaction added to or removed from a message.
#[derive(Debug, Clone, Copy, PartialEq, Eq, Structural)]
pub struct ReactionEvent {
    pub message: u64,
    pub user: u64,
    pub symbol: Symbol,
}

/// What the caller is to do after an event.
#[derive(Debug, PartialEq, Eq)]
pub enum Effect {
    Nothing,
    /// Set the server-mute flag of these members.
    Mute(Vec<u64>),
    /// Clear the server-mute flag of these members.
    Unmute(Vec<u64>),
    /// Give this member access to the dead chat.
    GrantDead(u64),
}

impl SessionManager {
    /// Whether a reaction event is to be acted on at all: not the bot's own,
    /// and on the live control message.
    pub open spec fn reaction_counts(&self, bot: u64, event: ReactionEvent) -> bool {
        event.user != bot && self.targets_control(event.message)
    }

    /// Handles a reaction added to a message. On the control message the
    /// emergency symbol calls a meeting (for a member in control) and the dead
    /// symbol marks the reacting member dead; anything else changes nothing.
    pub fn on_reaction_add(&mut self, bot: u64, event: ReactionEvent, voice_members: &Vec<u64>) -> (r:
        Effect)
        requires
            old(self).wf(),
        ensures
            final(self).wf(),
            !old(self).reaction_counts(bot, event) ==> r == Effect::Nothing && final(self).same_state(old(self)),
            old(self).reaction_counts(bot, event) && event.symbol == Symbol::Other ==> r
                == Effect::Nothing && final(self).same_state(old(self)),
            old(self).reaction_counts(bot, event) && event.symbol == Symbol::Emergency && !old(self).in_control(event.user) ==> r == Effect::Nothing && final(self).same_state(old(self)),
            old(self).reaction_counts(bot, event) && event.symbol == Symbol::Emergency && old(self).in_control(event.user) ==> {
                &&& r is Mute
                &&& id_set(r->Mute_0@) == id_set(voice_members@).difference(old(self).muted_of())
                &&& final(self).meeting_of()
                &&& final(self).muted_of() == muted_after_mute_all(
                    old(self).muted_of(),
                    voice_members@,
                )
                &&& final(self).has_session()
                &&& final(self).initiator_of() == old(self).initiator_of()
                &&& final(self).control_of() == old(self).control_of()
                &&& final(self).dead_of() == old(self).dead_of()
                &&& final(self).owner_set() == old(self).owner_set()
            },
            old(self).reaction_counts(bot, event) && event.symbol == Symbol::Dead ==> {
                &&& r == Effect::GrantDead(event.user)
                &&& final(self).dead_of() == old(self).dead_of().insert(event.user)
                &&& final(self).has_session()
                &&& final(self).initiator_of() == old(self).initiator_of()
                &&& final(self).control_of() == old(self).control_of()
                &&& final(self).meeting_of() == old(self).meeting_of()
                &&& final(self).owner_set() == old(self).owner_set()
                &&& final(self).muted_of() == old(self).muted_of()
            },
    {
        if event.user == bot || !self.is_control_reaction(event.message) {
            return Effect::Nothing;
        }
        match event.symbol {
            Symbol::Emergency => {
                if !self.is_in_control(event.user) {
                    return Effect::Nothing;
                }
                match self.call_emergency_meeting(voice_members) {
                    Ok(newly) => Effect::Mute(newly),
                    Err(_) => Effect::Nothing,
                }
            },
            Symbol::Dead => {
                self.mark_dead(event.user);
                Effect::GrantDead(event.user)
            },
            Symbol::Other => Effect::Nothing,
        }
    }

    /// Handles a reaction removed from a message. Withdrawing the emergency
    /// symbol from the control message, by a member in control, ends the
    /// meeting and unmutes everyone this manager muted; anything else changes
    /// nothing.
    pub fn on_reaction_remove(&mut self, bot: u64, event: ReactionEvent) -> (r: Effect)
        requires
            old(self).wf(),
        ensures
            final(self).wf(),
            !(old(self).reaction_counts(bot, event) && event.symbol == Symbol::Emergency && old(self).in_control(event.user)) ==> r == Effect::Nothing && final(self).same_state(old(self)),
            old(self).reaction_counts(bot, event) && event.symbol == Symbol::Emergency && old(self).in_control(event.user) ==> {
                &&& r is Unmute
                &&& id_set(r->Unmute_0@) == old(self).muted_of()
                &&& !final(self).meeting_of()
                &&& final(self).muted_of() == Set::<u64>::empty()
                &&& final(self).has_session()
                &&& final(self).initiator_of() == old(self).initiator_of()
                &&& final(self).control_of() == old(self).control_of()
                &&& final(self).dead_of() == old(self).dead_of()
                &&& final(self).owner_set() == old(self).owner_set()
            },
    {
        if event.user == bot || event.symbol != Symbol::Emergency || !self.is_control_reaction(
            event.message,
        ) || !self.is_in_control(event.user) {
            return Effect::Nothing;
        }
        Effect::Unmute(self.withdraw_emergency())
    }

    /// The `end` command from `author`: refused for a member not in control,
    /// and without a session; otherwise the session ends and the result lists
    /// the members to unmute.
    pub fn end_command(&mut self, author: u64) -> (r: Result<Vec<u64>, SessionError>)
        requires
            old(self).wf(),
        ensures
            final(self).wf(),
            !old(self).in_control(author) ==> r == Err::<Vec<u64>, SessionError>(
                SessionError::Unauthorized,
            ) && final(self).same_state(old(self)),
            old(self).in_control(author) && !old(self).has_session() ==> r == Err::<
                Vec<u64>,
                SessionError,
            >(SessionError::NoActiveSession) && final(self).same_state(old(self)),
            old(self).in_control(author) && old(self).has_session() ==> {
                &&& r is Ok
                &&& id_set(r->Ok_0@) == old(self).muted_of()
                &&& !final(self).has_session()
                &&& final(self).muted_of() == Set::<u64>::empty()
                &&& final(self).owner_set() == old(self).owner_set()
            },
    {
        if !self.is_in_control(author) {
            return Err(SessionError::Unauthorized);
        }
        self.end()
    }

    /// The `stop` command from `author`: refused for a member not in control.
    /// Otherwise the session in progress, if any, ends, and the result lists
    /// the members to unmute before the process stops.
    pub fn stop_command(&mut self, author: u64) -> (r: Result<Vec<u64>, SessionError>)
        requires
            old(self).wf(),
        ensures
            final(self).wf(),
            !old(self).in_control(author) ==> r == Err::<Vec<u64>, SessionError>(
                SessionError::Unauthorized,
            ) && final(self).same_state(old(self)),
            old(self).in_control(author) ==> {
                &&& r is Ok
                &&& id_set(r->Ok_0@) == old(self).muted_of()
                &&& !final(self).has_session()
                &&& final(self).muted_of() == Set::<u64>::empty()
                &&& final(self).owner_set() == old(self).owner_set()
            },
    {
        if !self.is_in_control(author) {
            return Err(SessionError::Unauthorized);
        }
        if self.is_in_progress() {
            self.end()
        } else {
            proof {
                self.lemma_idle_mutes_nobody();
            }
            let none: Vec<u64> = Vec::new();
            assert(id_set(none@) =~= Set::<u64>::empty());
            Ok(none)
        }
    }

    /// The `dead` command from `author` naming `target`: refused without a
    /// session, for a member not in control, and without a target; otherwise
    /// the target is marked dead and returned.
    pub fn dead_command(&mut self, author: u64, target: Option<u64>) -> (r: Result<
        u64,
        SessionError,
    >)
        requires
            old(self).wf(),
        ensures
            final(self).wf(),
            !old(self).has_session() ==> r == Err::<u64, SessionError>(
                SessionError::NoActiveSession,
            ) && final(self).same_state(old(self)),
            old(self).has_session() && !old(self).in_control(author) ==> r == Err::<
                u64,
                SessionError,
            >(SessionError::Unauthorized) && final(self).same_state(old(self)),
            old(self).has_session() && old(self).in_control(author) && target is None ==> r
                == Err::<u64, SessionError>(SessionError::MalformedCommand) && final(self).same_state(old(self)),
            old(self).has_session() && old(self).in_control(author) && target is Some ==> {
                &&& r == Ok::<u64, SessionError>(target->Some_0)
                &&& final(self).dead_of() == old(self).dead_of().insert(target->Some_0)
                &&& final(self).has_session()
                &&& final(self).initiator_of() == old(self).initiator_of()
                &&& final(self).control_of() == old(self).control_of()
                &&& final(self).meeting_of() == old(self).meeting_of()
                &&& final(self).owner_set() == old(self).owner_set()
                &&& final(self).muted_of() == old(self).muted_of()
            },
    {
        if !self.is_in_progress() {
            return Err(SessionError::NoActiveSession);
        }
        if !self.is_in_control(author) {
            return Err(SessionError::Unauthorized);
        }
        match target {
            None => Err(SessionError::MalformedCommand),
            Some(t) => {
                self.mark_dead(t);
                Ok(t)
            },
        }
    }
}

} // verus!
