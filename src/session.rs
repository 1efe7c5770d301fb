use vstd::prelude::*;

use crate::auth::{authorized, is_authorized};
use crate::ids::{contains_id, id_set, lemma_id_set_push};
use crate::voice::{muted_after_mute_all, VoiceMuteCoordinator};

verus! {

/// Why a session operation was refused.
#[derive(Debug, Clone, Copy, PartialEq, Eq, Structural)]
pub enum SessionError {
    SessionAlreadyActive,
    NoActiveSession,
    Unauthorized,
    MalformedCommand,
}

/// The one game round in progress.
pub struct GameSession {
    initiator: u64,
    guild: u64,
    control_message: Option<u64>,
    dead_members: Vec<u64>,
    meeting_active: bool,
}

/// Owns the current session (at most one), the owner set and the mute
/// coordinator. Every change of session state goes through it.
pub struct SessionManager {
    owners: Vec<u64>,
    session: Option<GameSession>,
    voice: VoiceMuteCoordinator,
}

impl SessionManager {
    pub closed spec fn wf(&self) -> bool {
        &&& self.voice.wf()
        &&& (self.session is None ==> self.voice.muted_set() == Set::<u64>::empty())
        &&& (self.session is Some ==> self.session->Some_0.dead_members@.no_duplicates())
    }

    /// Whether a session is in progress.
    pub closed spec fn has_session(&self) -> bool {
        self.session is Some
    }

    /// The initiator of the session in progress, if any.
    pub closed spec fn initiator_of(&self) -> Option<u64> {
        match self.session {
            Some(s) => Some(s.initiator),
            None => None,
        }
    }

    /// The chat group of the session in progress (meaningful while one is).
    pub closed spec fn guild_of(&self) -> u64 {
        self.session->Some_0.guild
    }

    /// The control message of the session in progress, if one is bound.
    pub closed spec fn control_of(&self) -> Option<u64> {
        match self.session {
            Some(s) => s.control_message,
            None => None,
        }
    }

    /// The members marked dead in the session in progress (empty without one).
    pub closed spec fn dead_of(&self) -> Set<u64> {
        match self.session {
            Some(s) => id_set(s.dead_members@),
            None => Set::empty(),
        }
    }

    /// Whether a meeting is called in the session in progress.
    pub closed spec fn meeting_of(&self) -> bool {
        match self.session {
            Some(s) => s.meeting_active,
            None => false,
        }
    }

    pub closed spec fn owner_set(&self) -> Set<u64> {
        id_set(self.owners@)
    }

    /// The members muted by this manager and not yet unmuted.
    pub closed spec fn muted_of(&self) -> Set<u64> {
        self.voice.muted_set()
    }

    /// Whether `actor` is in control now.
    pub open spec fn in_control(&self, actor: u64) -> bool {
        authorized(actor, self.initiator_of(), self.owner_set())
    }

    /// Whether a reaction on `message` targets the live control message.
    pub open spec fn targets_control(&self, message: u64) -> bool {
        self.has_session() && self.control_of() == Some(message)
    }

    /// The session, and what it has muted, are as in `other`.
    pub open spec fn same_state(&self, other: &Self) -> bool {
        &&& self.has_session() == other.has_session()
        &&& self.initiator_of() == other.initiator_of()
        &&& self.guild_of() == other.guild_of()
        &&& self.control_of() == other.control_of()
        &&& self.dead_of() == other.dead_of()
        &&& self.meeting_of() == other.meeting_of()
        &&& self.owner_set() == other.owner_set()
        &&& self.muted_of() == other.muted_of()
    }

    /// With no session in progress, nobody stays muted by this manager.
    pub proof fn lemma_idle_mutes_nobody(&self)
        requires
            self.wf(),
        ensures
            !self.has_session() ==> self.muted_of() == Set::<u64>::empty(),
    {
    }

    /// A manager with no session, for the given owners.
    pub fn new(owners: Vec<u64>) -> (r: Self)
        ensures
            r.wf(),
            !r.has_session(),
            r.owner_set() == id_set(owners@),
            r.muted_of() == Set::<u64>::empty(),
    {
        SessionManager { owners, session: None, voice: VoiceMuteCoordinator::new() }
    }

    /// Starts a session for `initiator` in `guild`; refused while one is in
    /// progress.
    pub fn start(&mut self, initiator: u64, guild: u64) -> (r: Result<(), SessionError>)
        requires
            old(self).wf(),
        ensures
            final(self).wf(),
            old(self).has_session() ==> r == Err::<(), SessionError>(
                SessionError::SessionAlreadyActive,
            ) && final(self).same_state(old(self)),
            !old(self).has_session() ==> {
                &&& r == Ok::<(), SessionError>(())
                &&& final(self).has_session()
                &&& final(self).initiator_of() == Some(initiator)
                &&& final(self).guild_of() == guild
                &&& final(self).control_of() == None::<u64>
                &&& final(self).dead_of() == Set::<u64>::empty()
                &&& !final(self).meeting_of()
                &&& final(self).owner_set() == old(self).owner_set()
                &&& final(self).muted_of() == old(self).muted_of()
            },
    {
        if self.session.is_some() {
            return Err(SessionError::SessionAlreadyActive);
        }
        self.session = Some(
            GameSession {
                initiator,
                guild,
                control_message: None,
                dead_members: Vec::new(),
                meeting_active: false,
            },
        );
        assert(self.dead_of() =~= Set::<u64>::empty());
        Ok(())
    }

    /// Binds the control message of the session in progress. The first binding
    /// stays: later ones change nothing.
    pub fn bind_control_message(&mut self, message: u64) -> (r: Result<(), SessionError>)
        requires
            old(self).wf(),
        ensures
            final(self).wf(),
            !old(self).has_session() ==> r == Err::<(), SessionError>(
                SessionError::NoActiveSession,
            ) && final(self).same_state(old(self)),
            old(self).has_session() ==> {
                &&& r == Ok::<(), SessionError>(())
                &&& final(self).control_of() == match old(self).control_of() {
                    Some(c) => Some(c),
                    None => Some(message),
                }
                &&& final(self).has_session()
                &&& final(self).initiator_of() == old(self).initiator_of()
                &&& final(self).guild_of() == old(self).guild_of()
                &&& final(self).dead_of() == old(self).dead_of()
                &&& final(self).meeting_of() == old(self).meeting_of()
                &&& final(self).owner_set() == old(self).owner_set()
                &&& final(self).muted_of() == old(self).muted_of()
            },
    {
        match &mut self.session {
            None => Err(SessionError::NoActiveSession),
            Some(s) => {
                if s.control_message.is_none() {
                    s.control_message = Some(message);
                }
                Ok(())
            },
        }
    }

    /// Ends the session in progress. Every member muted by this manager is
    /// unmuted first: the result lists them, each once.
    pub fn end(&mut self) -> (r: Result<Vec<u64>, SessionError>)
        requires
            old(self).wf(),
        ensures
            final(self).wf(),
            !old(self).has_session() ==> r == Err::<Vec<u64>, SessionError>(
                SessionError::NoActiveSession,
            ) && final(self).same_state(old(self)),
            old(self).has_session() ==> {
                &&& r is Ok
                &&& id_set(r->Ok_0@) == old(self).muted_of()
                &&& r->Ok_0@.no_duplicates()
                &&& !final(self).has_session()
                &&& final(self).muted_of() == Set::<u64>::empty()
                &&& final(self).owner_set() == old(self).owner_set()
            },
    {
        if self.session.is_none() {
            return Err(SessionError::NoActiveSession);
        }
        let released = self.voice.unmute_all();
        self.session = None;
        Ok(released)
    }

    /// Whether a session is in progress.
    pub fn is_in_progress(&self) -> (r: bool)
        ensures
            r == self.has_session(),
    {
        self.session.is_some()
    }

    /// The initiator of the session in progress, if any.
    pub fn initiator(&self) -> (r: Option<u64>)
        ensures
            r == self.initiator_of(),
    {
        match &self.session {
            Some(s) => Some(s.initiator),
            None => None,
        }
    }

    /// The chat group of the session in progress, if any.
    pub fn guild(&self) -> (r: Option<u64>)
        ensures
            self.has_session() ==> r == Some(self.guild_of()),
            !self.has_session() ==> r == None::<u64>,
    {
        match &self.session {
            Some(s) => Some(s.guild),
            None => None,
        }
    }

    /// The bound control message of the session in progress, if any.
    pub fn control_message(&self) -> (r: Option<u64>)
        ensures
            r == self.control_of(),
    {
        match &self.session {
            Some(s) => s.control_message,
            None => None,
        }
    }

    /// Whether a meeting is called in the session in progress.
    pub fn is_meeting_active(&self) -> (r: bool)
        ensures
            r == self.meeting_of(),
    {
        match &self.session {
            Some(s) => s.meeting_active,
            None => false,
        }
    }

    /// Whether `member` is marked dead in the session in progress.
    pub fn is_dead(&self, member: u64) -> (r: bool)
        ensures
            r == self.dead_of().contains(member),
    {
        match &self.session {
            Some(s) => contains_id(&s.dead_members, member),
            None => false,
        }
    }

    /// Whether `member` is muted by this manager.
    pub fn is_muted(&self, member: u64) -> (r: bool)
        ensures
            r == self.muted_of().contains(member),
    {
        self.voice.is_muted(member)
    }

    /// Whether `actor` is in control: the initiator of the session in
    /// progress, or an owner (owners are, with or without a session).
    pub fn is_in_control(&self, actor: u64) -> (r: bool)
        ensures
            r == self.in_control(actor),
    {
        is_authorized(actor, self.initiator(), &self.owners)
    }

    /// Whether a reaction on `message` targets the control message of the
    /// session in progress.
    pub fn is_control_reaction(&self, message: u64) -> (r: bool)
        ensures
            r == self.targets_control(message),
    {
        match &self.session {
            Some(s) => s.control_message == Some(message),
            None => false,
        }
    }

    /// Marks `member` dead in the session in progress; without one, nothing
    /// changes. Marking twice has no further effect. The result says whether
    /// `member` was newly marked.
    pub fn mark_dead(&mut self, member: u64) -> (r: bool)
        requires
            old(self).wf(),
        ensures
            final(self).wf(),
            !old(self).has_session() ==> !r && final(self).same_state(old(self)),
            old(self).has_session() ==> {
                &&& r == !old(self).dead_of().contains(member)
                &&& final(self).dead_of() == old(self).dead_of().insert(member)
                &&& final(self).has_session()
                &&& final(self).initiator_of() == old(self).initiator_of()
                &&& final(self).guild_of() == old(self).guild_of()
                &&& final(self).control_of() == old(self).control_of()
                &&& final(self).meeting_of() == old(self).meeting_of()
                &&& final(self).owner_set() == old(self).owner_set()
                &&& final(self).muted_of() == old(self).muted_of()
            },
    {
        match &mut self.session {
            None => false,
            Some(s) => {
                if contains_id(&s.dead_members, member) {
                    assert(id_set(s.dead_members@).insert(member) =~= id_set(s.dead_members@));
                    false
                } else {
                    proof {
                        lemma_id_set_push(s.dead_members@, member);
                    }
                    let ghost d0 = s.dead_members@;
                    s.dead_members.push(member);
                    assert forall|a: int, b: int|
                        0 <= a < s.dead_members@.len() && 0 <= b < s.dead_members@.len() && a
                            != b implies s.dead_members@[a] != s.dead_members@[b] by {
                        if a < d0.len() && b < d0.len() {
                            assert(d0[a] != d0[b]);
                        } else if a < d0.len() {
                            assert(d0.contains(d0[a]));
                        } else if b < d0.len() {
                            assert(d0.contains(d0[b]));
                        }
                    }
                    true
                }
            },
        }
    }

    /// Mutes the members in `voice_members` for the session in progress,
    /// whatever the meeting state; without a session nothing changes and
    /// nobody is muted. The result lists, each once, the members whose mute
    /// flag is to be set now.
    pub fn mute_players(&mut self, voice_members: &Vec<u64>) -> (r: Vec<u64>)
        requires
            old(self).wf(),
        ensures
            final(self).wf(),
            !old(self).has_session() ==> r@.len() == 0 && final(self).same_state(old(self)),
            old(self).has_session() ==> {
                &&& id_set(r@) == id_set(voice_members@).difference(old(self).muted_of())
                &&& r@.no_duplicates()
                &&& final(self).muted_of() == muted_after_mute_all(
                    old(self).muted_of(),
                    voice_members@,
                )
                &&& final(self).has_session()
                &&& final(self).initiator_of() == old(self).initiator_of()
                &&& final(self).guild_of() == old(self).guild_of()
                &&& final(self).control_of() == old(self).control_of()
                &&& final(self).dead_of() == old(self).dead_of()
                &&& final(self).meeting_of() == old(self).meeting_of()
                &&& final(self).owner_set() == old(self).owner_set()
            },
    {
        if self.session.is_none() {
            return Vec::new();
        }
        self.voice.mute_all(voice_members)
    }

    /// Calls an emergency meeting: the meeting flag is set and the members in
    /// `voice_members` are muted. The result lists, each once, the members
    /// whose mute flag is to be set now.
    pub fn call_emergency_meeting(&mut self, voice_members: &Vec<u64>) -> (r: Result<
        Vec<u64>,
        SessionError,
    >)
        requires
            old(self).wf(),
        ensures
            final(self).wf(),
            !old(self).has_session() ==> r == Err::<Vec<u64>, SessionError>(
                SessionError::NoActiveSession,
            ) && final(self).same_state(old(self)),
            old(self).has_session() ==> {
                &&& r is Ok
                &&& id_set(r->Ok_0@) == id_set(voice_members@).difference(old(self).muted_of())
                &&& r->Ok_0@.no_duplicates()
                &&& final(self).meeting_of()
                &&& final(self).muted_of() == muted_after_mute_all(
                    old(self).muted_of(),
                    voice_members@,
                )
                &&& final(self).has_session()
                &&& final(self).initiator_of() == old(self).initiator_of()
                &&& final(self).guild_of() == old(self).guild_of()
                &&& final(self).control_of() == old(self).control_of()
                &&& final(self).dead_of() == old(self).dead_of()
                &&& final(self).owner_set() == old(self).owner_set()
            },
    {
        match &mut self.session {
            None => { return Err(SessionError::NoActiveSession); },
            Some(s) => { s.meeting_active = true; },
        }
        Ok(self.voice.mute_all(voice_members))
    }

    /// Withdraws an emergency meeting: the meeting flag is cleared (if a
    /// session is in progress) and every member muted by this manager is
    /// unmuted. A withdrawal with no meeting called is no error. The result
    /// lists, each once, exactly the members muted before the call.
    pub fn withdraw_emergency(&mut self) -> (r: Vec<u64>)
        requires
            old(self).wf(),
        ensures
            final(self).wf(),
            id_set(r@) == old(self).muted_of(),
            r@.no_duplicates(),
            final(self).muted_of() == Set::<u64>::empty(),
            !final(self).meeting_of(),
            final(self).has_session() == old(self).has_session(),
            final(self).initiator_of() == old(self).initiator_of(),
            final(self).guild_of() == old(self).guild_of(),
            final(self).control_of() == old(self).control_of(),
            final(self).dead_of() == old(self).dead_of(),
            final(self).owner_set() == old(self).owner_set(),
    {
        match &mut self.session {
            None => {},
            Some(s) => { s.meeting_active = false; },
        }
        self.voice.unmute_all()
    }
}

} // verus!
