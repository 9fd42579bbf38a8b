//! The voice calls, one per guild at most, and the steps by which a call is
//! set up and torn down.

use vstd::prelude::*;
use std::collections::HashMap;

verus! {

broadcast use vstd::std_specs::hash::group_hash_axioms;

/// Where a guild stands with respect to its call.
#[derive(Clone, Copy, Debug, PartialEq, Eq, Structural)]
pub enum CallState {
    Disconnected,
    Connecting,
    Connected,
}

/// A live connection to one voice channel of one guild.
#[derive(Clone, Copy, Debug, PartialEq, Eq, Structural)]
pub struct VoiceSession {
    pub guild: u64,
    pub voice_channel: u64,
}

/// What the registry keeps of a guild that is not disconnected.
#[derive(Clone, Copy, Debug, PartialEq, Eq, Structural)]
pub struct CallEntry {
    pub voice_channel: u64,
    pub connected: bool,
}

/// What a caller of `connect` has to do.
#[derive(Clone, Copy, Debug, PartialEq, Eq, Structural)]
pub enum ConnectStep {
    /// Open the connection, then report with `complete`.
    Begin,
    /// Another caller is opening it: wait for that outcome.
    Await,
    /// The guild has its call already.
    Established(VoiceSession),
}

/// Why a guild has no call after an attempt.
#[derive(Clone, Copy, Debug, PartialEq, Eq, Structural)]
pub enum ConnectionError {
    /// The voice channel could not be joined.
    Failed,
    /// The guild was disconnected while the attempt ran.
    Abandoned,
}

/// An attempt to play into a call that is not there.
#[derive(Clone, Copy, Debug, PartialEq, Eq, Structural)]
pub enum PlaybackError {
    SessionGone,
}

/// The state that `entries` records for `guild`.
pub open spec fn state_in(entries: Map<u64, CallEntry>, guild: u64) -> CallState {
    if !entries.contains_key(guild) {
        CallState::Disconnected
    } else if entries[guild].connected {
        CallState::Connected
    } else {
        CallState::Connecting
    }
}

/// The live session that `entries` records for `guild`, if any.
pub open spec fn session_in(entries: Map<u64, CallEntry>, guild: u64) -> Option<VoiceSession> {
    if entries.contains_key(guild) && entries[guild].connected {
        Some(VoiceSession { guild, voice_channel: entries[guild].voice_channel })
    } else {
        None
    }
}

/// The calls of all guilds. A guild without an entry is disconnected.
pub struct CallRegistry {
    calls: HashMap<u64, CallEntry>,
}

impl View for CallRegistry {
    type V = Map<u64, CallEntry>;

    closed spec fn view(&self) -> Map<u64, CallEntry> {
        self.calls@
    }
}

impl CallRegistry {
    /// A registry in which every guild is disconnected.
    pub fn new() -> (registry: Self)
        ensures
            registry@ == Map::<u64, CallEntry>::empty(),
    {
        CallRegistry { calls: HashMap::new() }
    }

    /// The state of `guild`.
    pub fn state(&self, guild: u64) -> (state: CallState)
        ensures
            state == state_in(self@, guild),
    {
        match self.calls.get(&guild) {
            None => CallState::Disconnected,
            Some(entry) => if entry.connected {
                CallState::Connected
            } else {
                CallState::Connecting
            },
        }
    }

    /// The live session of `guild`, if it has one.
    pub fn get(&self, guild: u64) -> (session: Option<VoiceSession>)
        ensures
            session == session_in(self@, guild),
    {
        match self.calls.get(&guild) {
            None => None,
            Some(entry) => if entry.connected {
                Some(VoiceSession { guild, voice_channel: entry.voice_channel })
            } else {
                None
            },
        }
    }

    /// Asks for a call of `guild` in `voice_channel`. Only a disconnected
    /// guild starts an attempt; while one runs, later callers are told to
    /// wait for it, and a connected guild answers with its session.
    pub fn connect(&mut self, guild: u64, voice_channel: u64) -> (step: ConnectStep)
        ensures
            match state_in(old(self)@, guild) {
                CallState::Disconnected => step == ConnectStep::Begin && final(self)@ == old(
                    self,
                )@.insert(guild, (CallEntry { voice_channel, connected: false })),
                CallState::Connecting => step == ConnectStep::Await && final(self)@ == old(self)@,
                CallState::Connected => step == ConnectStep::Established(
                    session_in(old(self)@, guild).unwrap(),
                ) && final(self)@ == old(self)@,
            },
    {
        match self.calls.get(&guild) {
            None => {
                self.calls.insert(guild, CallEntry { voice_channel, connected: false });
                ConnectStep::Begin
            },
            Some(entry) => if entry.connected {
                ConnectStep::Established(
                    VoiceSession { guild, voice_channel: entry.voice_channel },
                )
            } else {
                ConnectStep::Await
            },
        }
    }

    /// Reports how the attempt for `guild` ended. A running attempt becomes
    /// the session when `joined`, and is forgotten with `Failed` when not. A
    /// connected guild answers with its session. A guild that was
    /// disconnected meanwhile stays so, and the attempt counts as abandoned.
    pub fn complete(&mut self, guild: u64, joined: bool) -> (r: Result<
        VoiceSession,
        ConnectionError,
    >)
        ensures
            match state_in(old(self)@, guild) {
                CallState::Disconnected => r == Err::<VoiceSession, ConnectionError>(
                    ConnectionError::Abandoned,
                ) && final(self)@ == old(self)@,
                CallState::Connecting => if joined {
                    &&& final(self)@ == old(self)@.insert(
                        guild,
                        (CallEntry {
                            voice_channel: old(self)@[guild].voice_channel,
                            connected: true,
                        }),
                    )
                    &&& r == session_in(final(self)@, guild).ok_or(ConnectionError::Failed)
                    &&& r is Ok
                } else {
                    &&& final(self)@ == old(self)@.remove(guild)
                    &&& r == Err::<VoiceSession, ConnectionError>(ConnectionError::Failed)
                },
                CallState::Connected => r == Ok::<VoiceSession, ConnectionError>(
                    session_in(old(self)@, guild).unwrap(),
                ) && final(self)@ == old(self)@,
            },
    {
        let found: Option<CallEntry> = match self.calls.get(&guild) {
            None => None,
            Some(entry) => Some(*entry),
        };
        match found {
            None => Err(ConnectionError::Abandoned),
            Some(entry) => {
                let session = VoiceSession { guild, voice_channel: entry.voice_channel };
                if entry.connected {
                    Ok(session)
                } else if joined {
                    self.calls.insert(
                        guild,
                        CallEntry { voice_channel: entry.voice_channel, connected: true },
                    );
                    Ok(session)
                } else {
                    self.calls.remove(&guild);
                    Err(ConnectionError::Failed)
                }
            },
        }
    }

    /// Ends the call of `guild`, in whatever state it is. The session that
    /// was live, if any, is handed back to be closed. On a guild without an
    /// entry nothing changes.
    pub fn disconnect(&mut self, guild: u64) -> (closed: Option<VoiceSession>)
        ensures
            final(self)@ == old(self)@.remove(guild),
            state_in(final(self)@, guild) == CallState::Disconnected,
            closed == session_in(old(self)@, guild),
            state_in(old(self)@, guild) == CallState::Disconnected ==> final(self)@ == old(self)@
                && closed is None,
    {
        let closed = self.get(guild);
        self.calls.remove(&guild);
        assert(!old(self)@.contains_key(guild) ==> old(self)@.remove(guild) =~= old(self)@);
        closed
    }

    /// Admits a source to `session` only while that very session is live.
    pub fn play(&self, session: VoiceSession) -> (r: Result<(), PlaybackError>)
        ensures
            r is Ok <==> session_in(self@, session.guild) == Some(session),
            r is Err ==> r == Err::<(), PlaybackError>(PlaybackError::SessionGone),
    {
        match self.get(session.guild) {
            Some(live) => if live.voice_channel == session.voice_channel {
                Ok(())
            } else {
                Err(PlaybackError::SessionGone)
            },
            None => Err(PlaybackError::SessionGone),
        }
    }
}

/// A guild never has two sessions: whatever sessions the registry reports for
/// one guild are one and the same, and each is filed under its own guild.
pub proof fn one_session_per_guild(entries: Map<u64, CallEntry>, a: VoiceSession, b: VoiceSession)
    requires
        exists|g: u64| session_in(entries, g) == Some(a),
        exists|g: u64| session_in(entries, g) == Some(b),
        a.guild == b.guild,
    ensures
        a == b,
        session_in(entries, a.guild) == Some(a),
{
}

/// A request to connect never replaces or doubles what a guild already has:
/// an attempt in progress or a live session is left exactly as it was.
pub proof fn connect_never_doubles(
    before: Map<u64, CallEntry>,
    after: Map<u64, CallEntry>,
    guild: u64,
    voice_channel: u64,
)
    requires
        state_in(before, guild) != CallState::Disconnected,
        match state_in(before, guild) {
            CallState::Disconnected => after == before.insert(
                guild,
                (CallEntry { voice_channel, connected: false }),
            ),
            _ => after == before,
        },
    ensures
        after == before,
        session_in(after, guild) == session_in(before, guild),
{
}

/// Disconnecting twice is disconnecting once.
pub proof fn disconnect_is_idempotent(before: Map<u64, CallEntry>, guild: u64)
    ensures
        before.remove(guild).remove(guild) == before.remove(guild),
        state_in(before.remove(guild), guild) == CallState::Disconnected,
{
    assert(before.remove(guild).remove(guild) =~= before.remove(guild));
}

} // verus!
