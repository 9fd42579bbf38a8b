//! The relay itself: what is done with each chat message, step by step, and
//! what the join and leave commands change.
//!
//! Every function here is one decision. The caller sends the requests and
//! plays the audio that the decisions ask for, and reports what came of it.

use vstd::prelude::*;
use std::collections::HashMap;
use crate::audio_store::{AudioHandle, IoError, TransientAudioStore};
use crate::playback::{
    arrival_keeps_ready, awaited, earlier_message_plays_first, marked, marking_keeps_ready, marking_makes_ready, queued,
    ready_in, settle, turn, turn_keeps_others_ready, PlaybackQueue, Slot, SlotState,
};
use crate::registry::{
    session_in, state_in, CallEntry, CallRegistry, CallState, ConnectStep, ConnectionError,
    PlaybackError, VoiceSession,
};
use crate::subscriptions::{RelayBinding, RelaySubscriptions};
use crate::voicevox::{
    audio_query_url, read_audio_query, render_body, read_synthesis, render_verdict,
    synthesis_url, HttpOutcome, SynthesisCall, SynthesisError, VoiceVox,
};

verus! {

broadcast use vstd::std_specs::hash::group_hash_axioms;

/// A chat message as the gateway delivers it.
pub struct ChatMessage {
    pub author_is_bot: bool,
    pub guild: u64,
    pub channel: u64,
    pub id: u64,
    pub text: String,
}

/// Why a message was not played.
#[derive(Clone, Copy, Debug, PartialEq, Eq, Structural)]
pub enum RelayError {
    Synthesis(SynthesisError),
    Playback(PlaybackError),
    Io(IoError),
}

/// What the join command leads to.
#[derive(Clone, Copy, Debug, PartialEq, Eq, Structural)]
pub enum JoinStep {
    /// The user is in no voice channel: reply so, and do nothing else.
    NotInVoice,
    /// The registry's answer for the user's voice channel.
    Connect(ConnectStep),
}

/// One source to hand to the sink of a session.
pub struct Playback {
    pub session: VoiceSession,
    pub message: u64,
    pub audio: Vec<u8>,
}

/// Whether a message is to be spoken: its author is no automated account,
/// its guild has a live session, and its channel is subscribed.
pub open spec fn admits(
    calls: Map<u64, CallEntry>,
    bindings: Set<RelayBinding>,
    author_is_bot: bool,
    guild: u64,
    channel: u64,
) -> bool {
    &&& !author_is_bot
    &&& session_in(calls, guild) is Some
    &&& bindings.contains((RelayBinding { guild, channel }))
}

spec fn slots_in(queues: Map<u64, PlaybackQueue>, guild: u64) -> Seq<Slot> {
    if queues.contains_key(guild) {
        queues[guild].slots()
    } else {
        Seq::empty()
    }
}

spec fn playing_in(queues: Map<u64, PlaybackQueue>, guild: u64) -> Option<u64> {
    if queues.contains_key(guild) {
        queues[guild].playing()
    } else {
        None
    }
}

spec fn all_wf(queues: Map<u64, PlaybackQueue>) -> bool {
    forall|g: u64| #[trigger] queues.contains_key(g) ==> queues[g].wf()
}

/// What keeps a relay tidy over a step that touches the queue of one guild
/// only: every buffer held afterwards was held before and, where its message
/// was ready in that guild, still is; or its message is ready there now.
proof fn tidy_follows(before: RelayPipeline, after: RelayPipeline, guild: u64)
    requires
        before.tidy(),
        after.same_queues_but(&before, guild),
        forall|key: u64| #[trigger]
            after.store@.contains_key(key) ==> ready_in(after.slots_of(guild), key) || (
            before.store@.contains_key(key) && !ready_in(before.slots_of(guild), key)),
    ensures
        after.tidy(),
{
    assert forall|key: u64| #[trigger] after.store@.contains_key(key) implies exists|g: u64|
        ready_in(after.slots_of(g), key) by {
        if !ready_in(after.slots_of(guild), key) {
            assert(before.store@.contains_key(key));
            let g = choose|g: u64| ready_in(before.slots_of(g), key);
            assert(g != guild);
            assert(after.slots_of(g) == before.slots_of(g));
        }
    }
}

/// Relays with the same buffers and the same queues are tidy alike.
proof fn tidy_alike(a: RelayPipeline, b: RelayPipeline)
    requires
        a.store@ == b.store@,
        a.queues@ == b.queues@,
    ensures
        a.tidy() == b.tidy(),
{
    if a.tidy() {
        assert forall|key: u64| #[trigger] b.store@.contains_key(key) implies exists|g: u64|
            ready_in(b.slots_of(g), key) by {
            let g = choose|g: u64| ready_in(a.slots_of(g), key);
            assert(b.slots_of(g) == a.slots_of(g));
        }
    }
    if b.tidy() {
        assert forall|key: u64| #[trigger] a.store@.contains_key(key) implies exists|g: u64|
            ready_in(a.slots_of(g), key) by {
            let g = choose|g: u64| ready_in(b.slots_of(g), key);
            assert(b.slots_of(g) == a.slots_of(g));
        }
    }
}

fn take_queue(queues: &mut HashMap<u64, PlaybackQueue>, guild: u64) -> (queue: PlaybackQueue)
    requires
        all_wf(old(queues)@),
    ensures
        queue.wf(),
        queue.slots() == slots_in(old(queues)@, guild),
        queue.playing() == playing_in(old(queues)@, guild),
        final(queues)@ == old(queues)@.remove(guild),
        all_wf(final(queues)@),
{
    match queues.remove(&guild) {
        Some(queue) => {
            assert(old(queues)@.contains_key(guild));
            queue
        },
        None => PlaybackQueue::new(),
    }
}

fn put_queue(queues: &mut HashMap<u64, PlaybackQueue>, guild: u64, queue: PlaybackQueue)
    requires
        all_wf(old(queues)@),
        queue.wf(),
    ensures
        final(queues)@ == old(queues)@.insert(guild, queue),
        all_wf(final(queues)@),
{
    queues.insert(guild, queue);
}

/// The relay's whole state: the synthesis client and speaker it is configured
/// with, the calls, the subscriptions, the stored audio and, guild by guild,
/// the messages that wait to be played.
pub struct RelayPipeline {
    pub voicevox: VoiceVox,
    pub speaker: i32,
    pub calls: CallRegistry,
    pub bindings: RelaySubscriptions,
    pub store: TransientAudioStore,
    pub queues: HashMap<u64, PlaybackQueue>,
}

impl RelayPipeline {
    /// The messages of `guild` that wait to be played, earliest first.
    pub closed spec fn slots_of(&self, guild: u64) -> Seq<Slot> {
        slots_in(self.queues@, guild)
    }

    /// The message of `guild` that is playing, if any.
    pub closed spec fn playing_of(&self, guild: u64) -> Option<u64> {
        playing_in(self.queues@, guild)
    }

    /// In no guild does a message wait twice.
    pub closed spec fn wf(&self) -> bool {
        all_wf(self.queues@)
    }

    /// No buffer outlives its message: whatever the store holds is the audio
    /// of a message that is ready and waits for its turn.
    pub open spec fn tidy(&self) -> bool {
        forall|key: u64| #[trigger]
            self.store@.contains_key(key) ==> exists|g: u64| ready_in(self.slots_of(g), key)
    }

    /// Configuration, calls and subscriptions are the same in both.
    pub open spec fn same_setup(&self, other: &Self) -> bool {
        &&& self.voicevox.base() == other.voicevox.base()
        &&& self.speaker == other.speaker
        &&& self.calls@ == other.calls@
        &&& self.bindings@ == other.bindings@
    }

    /// The queues of all guilds but `guild` are the same in both.
    pub open spec fn same_queues_but(&self, other: &Self, guild: u64) -> bool {
        forall|g: u64|
            g != guild ==> #[trigger] self.slots_of(g) == other.slots_of(g) && self.playing_of(g)
                == other.playing_of(g)
    }

    /// The queue of `guild` is the same in both.
    pub open spec fn same_queue(&self, other: &Self, guild: u64) -> bool {
        self.slots_of(guild) == other.slots_of(guild) && self.playing_of(guild) == other.playing_of(
            guild,
        )
    }

    /// A relay without calls, subscriptions, audio or waiting messages.
    pub fn new(voicevox: VoiceVox, speaker: i32) -> (relay: Self)
        ensures
            relay.wf(),
            relay.tidy(),
            relay.voicevox == voicevox,
            relay.speaker == speaker,
            relay.calls@ == Map::<u64, CallEntry>::empty(),
            relay.bindings@ == Set::<RelayBinding>::empty(),
            relay.store@ == Map::<u64, Seq<u8>>::empty(),
            forall|g: u64| #[trigger] relay.slots_of(g) == Seq::<Slot>::empty(),
            forall|g: u64| #[trigger] relay.playing_of(g) is None,
    {
        RelayPipeline {
            voicevox,
            speaker,
            calls: CallRegistry::new(),
            bindings: RelaySubscriptions::new(),
            store: TransientAudioStore::new(),
            queues: HashMap::new(),
        }
    }

    /// Whether a message is to be spoken.
    pub fn relays(&self, author_is_bot: bool, guild: u64, channel: u64) -> (yes: bool)
        ensures
            yes == admits(self.calls@, self.bindings@, author_is_bot, guild, channel),
    {
        if author_is_bot {
            return false;
        }
        if self.calls.get(guild).is_none() {
            return false;
        }
        self.bindings.is_subscribed(guild, channel)
    }

    /// Takes in one chat message. A message that is to be spoken gets the
    /// last place in its guild's queue, and the address of its query request
    /// is returned. Any other message, and one that waits already, changes
    /// nothing and asks for no request.
    pub fn accept(&mut self, msg: &ChatMessage) -> (request: Option<String>)
        requires
            old(self).wf(),
        ensures
            final(self).wf(),
            final(self).same_setup(old(self)),
            final(self).store@ == old(self).store@,
            final(self).same_queues_but(old(self), msg.guild),
            final(self).playing_of(msg.guild) == old(self).playing_of(msg.guild),
            old(self).tidy() ==> final(self).tidy(),
            request is Some <==> admits(
                old(self).calls@,
                old(self).bindings@,
                msg.author_is_bot,
                msg.guild,
                msg.channel,
            ) && !queued(old(self).slots_of(msg.guild), msg.id),
            match request {
                Some(address) => address@ == audio_query_url(
                    old(self).voicevox.base(),
                    old(self).speaker as int,
                    msg.text@,
                ) && final(self).slots_of(msg.guild) == old(self).slots_of(msg.guild).push(
                    (Slot { message: msg.id, state: SlotState::Pending }),
                ),
                None => final(self).slots_of(msg.guild) == old(self).slots_of(msg.guild),
            },
    {
        if !self.relays(msg.author_is_bot, msg.guild, msg.channel) {
            return None;
        }
        let mut queue = take_queue(&mut self.queues, msg.guild);
        let added = queue.enqueue(msg.id);
        put_queue(&mut self.queues, msg.guild, queue);
        proof {
            if old(self).tidy() {
                assert forall|key: u64| #[trigger]
                    self.store@.contains_key(key) && ready_in(
                        old(self).slots_of(msg.guild),
                        key,
                    ) implies ready_in(self.slots_of(msg.guild), key) by {
                    if added {
                        arrival_keeps_ready(
                            old(self).slots_of(msg.guild),
                            Slot { message: msg.id, state: SlotState::Pending },
                            key,
                        );
                    }
                }
                tidy_follows(*old(self), *self, msg.guild);
            }
        }
        if added {
            Some(self.voicevox.get_audio_query(msg.text.as_str(), self.speaker))
        } else {
            None
        }
    }

    fn mark(&mut self, guild: u64, message: u64, ready: bool) -> (changed: bool)
        requires
            old(self).wf(),
        ensures
            final(self).wf(),
            final(self).same_setup(old(self)),
            final(self).store@ == old(self).store@,
            final(self).same_queues_but(old(self), guild),
            final(self).playing_of(guild) == old(self).playing_of(guild),
            old(self).tidy() ==> final(self).tidy(),
            changed == awaited(old(self).slots_of(guild), message),
            final(self).slots_of(guild) == marked(
                old(self).slots_of(guild),
                message,
                if ready {
                    SlotState::Ready
                } else {
                    SlotState::Dropped
                },
            ),
    {
        let mut queue = take_queue(&mut self.queues, guild);
        let changed = queue.mark(message, ready);
        put_queue(&mut self.queues, guild, queue);
        proof {
            if old(self).tidy() {
                assert forall|key: u64| #[trigger]
                    self.store@.contains_key(key) && ready_in(
                        old(self).slots_of(guild),
                        key,
                    ) implies ready_in(self.slots_of(guild), key) by {
                    marking_keeps_ready(
                        old(self).slots_of(guild),
                        message,
                        if ready {
                            SlotState::Ready
                        } else {
                            SlotState::Dropped
                        },
                        key,
                    );
                }
                tidy_follows(*old(self), *self, guild);
            }
        }
        changed
    }

    /// Takes in the answer of the query phase for `message`. A usable answer
    /// yields the render request and leaves the queue alone. Any failure
    /// drops the message from its turn; the call and all other messages are
    /// untouched.
    pub fn query_answered(&mut self, guild: u64, message: u64, outcome: &HttpOutcome) -> (r: Result<
        SynthesisCall,
        SynthesisError,
    >)
        requires
            old(self).wf(),
        ensures
            final(self).wf(),
            final(self).same_setup(old(self)),
            final(self).store@ == old(self).store@,
            final(self).same_queues_but(old(self), guild),
            final(self).playing_of(guild) == old(self).playing_of(guild),
            old(self).tidy() ==> final(self).tidy(),
            match r {
                Ok(call) => call.url@ == synthesis_url(
                    old(self).voicevox.base(),
                    old(self).speaker as int,
                ) && final(self).slots_of(guild) == old(self).slots_of(guild),
                Err(_) => final(self).slots_of(guild) == marked(
                    old(self).slots_of(guild),
                    message,
                    SlotState::Dropped,
                ),
            },
            match render_body(*outcome) {
                Ok(text) => r is Ok && r->Ok_0.body@ == text,
                Err(e) => r == Err::<SynthesisCall, SynthesisError>(e),
            },
    {
        let made = match read_audio_query(self.speaker, outcome) {
            Ok(document) => self.voicevox.synthe(self.speaker, &document),
            Err(e) => Err(e),
        };
        if made.is_err() {
            self.mark(guild, message, false);
        }
        made
    }

    /// Takes in the answer of the render phase for `message`. Audio for a
    /// message that still waits is stored under the message's identifier and
    /// the message becomes ready. A failed synthesis, or a key that the store
    /// holds already, drops the message. Audio for a message that no longer
    /// waits, as after a disconnect, is not stored at all.
    pub fn rendered(&mut self, guild: u64, message: u64, outcome: HttpOutcome) -> (r: Result<
        AudioHandle,
        RelayError,
    >)
        requires
            old(self).wf(),
        ensures
            final(self).wf(),
            final(self).same_setup(old(self)),
            final(self).same_queues_but(old(self), guild),
            final(self).playing_of(guild) == old(self).playing_of(guild),
            old(self).tidy() ==> final(self).tidy(),
            match render_verdict(outcome) {
                Err(e) => {
                    &&& r == Err::<AudioHandle, RelayError>(RelayError::Synthesis(e))
                    &&& final(self).store@ == old(self).store@
                    &&& final(self).slots_of(guild) == marked(
                        old(self).slots_of(guild),
                        message,
                        SlotState::Dropped,
                    )
                },
                Ok(audio) => if old(self).store@.contains_key(message) {
                    &&& r == Err::<AudioHandle, RelayError>(RelayError::Io(IoError::Duplicate))
                    &&& final(self).store@ == old(self).store@
                    &&& final(self).slots_of(guild) == marked(
                        old(self).slots_of(guild),
                        message,
                        SlotState::Dropped,
                    )
                } else if awaited(old(self).slots_of(guild), message) {
                    &&& r == Ok::<AudioHandle, RelayError>((AudioHandle { key: message }))
                    &&& final(self).store@ == old(self).store@.insert(message, audio)
                    &&& final(self).slots_of(guild) == marked(
                        old(self).slots_of(guild),
                        message,
                        SlotState::Ready,
                    )
                } else {
                    &&& r == Err::<AudioHandle, RelayError>(
                        RelayError::Playback(PlaybackError::SessionGone),
                    )
                    &&& final(self).store@ == old(self).store@
                    &&& final(self).slots_of(guild) == old(self).slots_of(guild)
                },
            },
    {
        match read_synthesis(outcome) {
            Err(e) => {
                self.mark(guild, message, false);
                Err(RelayError::Synthesis(e))
            },
            Ok(audio) => {
                if self.store.holds(message) {
                    self.mark(guild, message, false);
                    Err(RelayError::Io(IoError::Duplicate))
                } else if self.mark(guild, message, true) {
                    let ghost marked_state = *self;
                    let stored = self.store.acquire(message, audio);
                    assert forall|g: u64| g != guild implies #[trigger] self.slots_of(g) == old(
                        self,
                    ).slots_of(g) && self.playing_of(g) == old(self).playing_of(g) by {
                        assert(marked_state.slots_of(g) == old(self).slots_of(g));
                    }
                    proof {
                        if old(self).tidy() {
                            marking_makes_ready(old(self).slots_of(guild), message);
                            assert forall|key: u64| #[trigger]
                                self.store@.contains_key(key) implies exists|g: u64|
                                ready_in(self.slots_of(g), key) by {
                                if key == message {
                                    assert(ready_in(self.slots_of(guild), key));
                                } else {
                                    assert(marked_state.store@.contains_key(key));
                                    let g = choose|g: u64| ready_in(marked_state.slots_of(g), key);
                                    assert(self.slots_of(g) == marked_state.slots_of(g));
                                }
                            }
                        }
                    }
                    match stored {
                        Ok(handle) => Ok(handle),
                        Err(e) => Err(RelayError::Io(e)),
                    }
                } else {
                    assert(marked(old(self).slots_of(guild), message, SlotState::Ready)
                        =~= old(self).slots_of(guild));
                    Err(RelayError::Playback(PlaybackError::SessionGone))
                }
            },
        }
    }

    /// Asks for the next source to play into `session`. A session that is no
    /// longer live is reported and nothing changes. While a message plays,
    /// nothing is handed out. Otherwise the message whose turn it is leaves
    /// the queue; its audio leaves the store in the same step, whether or not
    /// it can be handed out, and is handed out as the one source now playing.
    pub fn next_play(&mut self, session: VoiceSession) -> (r: Result<Option<Playback>, RelayError>)
        requires
            old(self).wf(),
        ensures
            final(self).wf(),
            final(self).same_setup(old(self)),
            final(self).same_queues_but(old(self), session.guild),
            old(self).tidy() ==> final(self).tidy(),
            if session_in(old(self).calls@, session.guild) != Some(session) {
                &&& r matches Err(e) && e == RelayError::Playback(PlaybackError::SessionGone)
                &&& final(self).store@ == old(self).store@
                &&& final(self).same_queue(old(self), session.guild)
            } else if old(self).playing_of(session.guild) is Some {
                &&& r matches Ok(None)
                &&& final(self).store@ == old(self).store@
                &&& final(self).same_queue(old(self), session.guild)
            } else {
                match turn(old(self).slots_of(session.guild)) {
                    None => {
                        &&& r matches Ok(None)
                        &&& final(self).store@ == old(self).store@
                        &&& final(self).slots_of(session.guild) == settle(
                            old(self).slots_of(session.guild),
                        )
                        &&& final(self).playing_of(session.guild) is None
                    },
                    Some(message) => {
                        &&& final(self).store@ == old(self).store@.remove(message)
                        &&& final(self).slots_of(session.guild) == settle(
                            old(self).slots_of(session.guild),
                        ).skip(1)
                        &&& if old(self).store@.contains_key(message) {
                            &&& r matches Ok(Some(p)) && p.session == session && p.message
                                == message && p.audio@ == old(self).store@[message]
                            &&& final(self).playing_of(session.guild) == Some(message)
                        } else {
                            &&& r matches Err(e) && e == RelayError::Io(IoError::Missing)
                            &&& final(self).playing_of(session.guild) is None
                        }
                    },
                }
            },
    {
        if self.calls.play(session).is_err() {
            return Err(RelayError::Playback(PlaybackError::SessionGone));
        }
        let mut queue = take_queue(&mut self.queues, session.guild);
        let next = queue.next();
        let r = match next {
            None => Ok(None),
            Some(message) => match self.store.take(AudioHandle { key: message }) {
                Ok(audio) => Ok(Some(Playback { session, message, audio })),
                Err(e) => {
                    queue.finished();
                    Err(RelayError::Io(e))
                },
            },
        };
        put_queue(&mut self.queues, session.guild, queue);
        proof {
            if old(self).tidy() {
                assert forall|key: u64| #[trigger]
                    self.store@.contains_key(key) && ready_in(
                        old(self).slots_of(session.guild),
                        key,
                    ) implies ready_in(self.slots_of(session.guild), key) by {
                    turn_keeps_others_ready(old(self).slots_of(session.guild), key);
                }
                tidy_follows(*old(self), *self, session.guild);
            }
        }
        r
    }

    /// Records that the source playing in `guild` has ended, so that the next
    /// message may have its turn.
    pub fn play_finished(&mut self, guild: u64)
        requires
            old(self).wf(),
        ensures
            final(self).wf(),
            final(self).same_setup(old(self)),
            final(self).store@ == old(self).store@,
            final(self).same_queues_but(old(self), guild),
            final(self).slots_of(guild) == old(self).slots_of(guild),
            final(self).playing_of(guild) is None,
            old(self).tidy() ==> final(self).tidy(),
    {
        let mut queue = take_queue(&mut self.queues, guild);
        queue.finished();
        put_queue(&mut self.queues, guild, queue);
        proof {
            if old(self).tidy() {
                tidy_follows(*old(self), *self, guild);
            }
        }
    }

    /// The join command, given in `text_channel` by a user who is in
    /// `voice_channel`, or in none. Where the guild has its session already,
    /// the text channel is subscribed at once; where a connection has to be
    /// opened first, `joined` subscribes it.
    pub fn join(&mut self, guild: u64, voice_channel: Option<u64>, text_channel: u64) -> (step:
        JoinStep)
        ensures
            final(self).voicevox == old(self).voicevox,
            final(self).speaker == old(self).speaker,
            final(self).store == old(self).store,
            final(self).wf() == old(self).wf(),
            final(self).tidy() == old(self).tidy(),
            forall|g: u64| #[trigger] final(self).slots_of(g) == old(self).slots_of(g),
            forall|g: u64| #[trigger] final(self).playing_of(g) == old(self).playing_of(g),
            final(self).bindings@ == if voice_channel is Some && state_in(old(self).calls@, guild)
                == CallState::Connected {
                old(self).bindings@.insert((RelayBinding { guild, channel: text_channel }))
            } else {
                old(self).bindings@
            },
            match voice_channel {
                None => step == JoinStep::NotInVoice && final(self).calls@ == old(self).calls@,
                Some(channel) => match state_in(old(self).calls@, guild) {
                    CallState::Disconnected => step == JoinStep::Connect(ConnectStep::Begin)
                        && final(self).calls@ == old(self).calls@.insert(
                        guild,
                        (CallEntry { voice_channel: channel, connected: false }),
                    ),
                    CallState::Connecting => step == JoinStep::Connect(ConnectStep::Await)
                        && final(self).calls@ == old(self).calls@,
                    CallState::Connected => step == JoinStep::Connect(
                        ConnectStep::Established(session_in(old(self).calls@, guild).unwrap()),
                    ) && final(self).calls@ == old(self).calls@,
                },
            },
    {
        let step = match voice_channel {
            None => JoinStep::NotInVoice,
            Some(channel) => {
                let step = self.calls.connect(guild, channel);
                match step {
                    ConnectStep::Established(_) => self.bindings.subscribe(guild, text_channel),
                    _ => {},
                }
                JoinStep::Connect(step)
            },
        };
        proof {
            tidy_alike(*old(self), *self);
        }
        step
    }

    /// Takes in how the connection asked for by `join` ended. Where the guild
    /// has its session now, the text channel the command came from is
    /// subscribed; where it has none, nothing is subscribed.
    pub fn joined(&mut self, guild: u64, text_channel: u64, connected: bool) -> (r: Result<
        VoiceSession,
        ConnectionError,
    >)
        ensures
            final(self).voicevox == old(self).voicevox,
            final(self).speaker == old(self).speaker,
            final(self).store == old(self).store,
            final(self).wf() == old(self).wf(),
            final(self).tidy() == old(self).tidy(),
            forall|g: u64| #[trigger] final(self).slots_of(g) == old(self).slots_of(g),
            forall|g: u64| #[trigger] final(self).playing_of(g) == old(self).playing_of(g),
            r is Ok <==> state_in(old(self).calls@, guild) == CallState::Connected || (state_in(
                old(self).calls@,
                guild,
            ) == CallState::Connecting && connected),
            match r {
                Ok(session) => {
                    &&& session_in(final(self).calls@, guild) == Some(session)
                    &&& session.voice_channel == old(self).calls@[guild].voice_channel
                    &&& final(self).calls@ == old(self).calls@.insert(
                        guild,
                        (CallEntry { voice_channel: session.voice_channel, connected: true }),
                    )
                    &&& final(self).bindings@ == old(self).bindings@.insert(
                        (RelayBinding { guild, channel: text_channel }),
                    )
                },
                Err(e) => {
                    &&& final(self).calls@ == old(self).calls@.remove(guild)
                    &&& final(self).bindings@ == old(self).bindings@
                    &&& e == if state_in(old(self).calls@, guild) == CallState::Connecting {
                        ConnectionError::Failed
                    } else {
                        ConnectionError::Abandoned
                    }
                },
            },
    {
        let r = self.calls.complete(guild, connected);
        if r.is_ok() {
            self.bindings.subscribe(guild, text_channel);
        }
        proof {
            let before = old(self).calls@;
            if before.contains_key(guild) && before[guild].connected {
                assert(before.insert(guild, before[guild]) =~= before);
            }
            if !before.contains_key(guild) {
                assert(before.remove(guild) =~= before);
            }
            tidy_alike(*old(self), *self);
        }
        r
    }

    /// The leave command, and any other end of the guild's call: the guild is
    /// disconnected, its bindings are dropped, its queue is emptied, and the
    /// audio of every message that waited is released. The session that was
    /// live, if any, is handed back to be closed. On a guild without call,
    /// bindings or waiting messages nothing changes.
    pub fn leave(&mut self, guild: u64) -> (closed: Option<VoiceSession>)
        requires
            old(self).wf(),
        ensures
            final(self).wf(),
            final(self).voicevox == old(self).voicevox,
            final(self).speaker == old(self).speaker,
            closed == session_in(old(self).calls@, guild),
            final(self).calls@ == old(self).calls@.remove(guild),
            final(self).bindings@ == old(self).bindings@.filter(
                |b: RelayBinding| b.guild != guild,
            ),
            final(self).same_queues_but(old(self), guild),
            final(self).slots_of(guild) == Seq::<Slot>::empty(),
            final(self).playing_of(guild) is None,
            old(self).tidy() ==> final(self).tidy(),
            forall|key: u64| #[trigger]
                final(self).store@.contains_key(key) <==> old(self).store@.contains_key(key)
                    && !queued(old(self).slots_of(guild), key),
            forall|key: u64| #[trigger]
                final(self).store@.contains_key(key) ==> final(self).store@[key] == old(
                    self,
                ).store@[key],
    {
        let closed = self.calls.disconnect(guild);
        self.bindings.drop_guild(guild);
        let queue = take_queue(&mut self.queues, guild);
        let mut i: usize = 0;
        while i < queue.waiting()
            invariant
                i <= queue.slots().len(),
                forall|key: u64| #[trigger]
                    self.store@.contains_key(key) <==> old(self).store@.contains_key(key)
                        && !queued(queue.slots().take(i as int), key),
                forall|key: u64| #[trigger]
                    self.store@.contains_key(key) ==> self.store@[key] == old(self).store@[key],
                self.voicevox == old(self).voicevox,
                self.speaker == old(self).speaker,
                self.calls@ == old(self).calls@.remove(guild),
                self.bindings@ == old(self).bindings@.filter(|b: RelayBinding| b.guild != guild),
                self.queues@ == old(self).queues@.remove(guild),
                all_wf(self.queues@),
            decreases queue.slots().len() - i,
        {
            let ghost message = queue.slots()[i as int].message;
            let ghost seen = queue.slots().take(i as int);
            let ghost seen_more = queue.slots().take(i + 1);
            match queue.message_at(i) {
                Some(key) => {
                    self.store.release(AudioHandle { key });
                },
                None => {},
            }
            assert forall|key: u64| queued(seen_more, key) <==> queued(seen, key) || key
                == message by {
                if queued(seen, key) {
                    let j = choose|j: int| 0 <= j < seen.len() && (#[trigger] seen[j]).message == key;
                    assert(seen_more[j].message == key);
                }
                if key == message {
                    assert(seen_more[i as int].message == key);
                }
                if queued(seen_more, key) {
                    let j = choose|j: int|
                        0 <= j < seen_more.len() && (#[trigger] seen_more[j]).message == key;
                    if j < i {
                        assert(seen[j].message == key);
                    }
                }
            }
            i += 1;
        }
        assert(queue.slots().take(i as int) =~= queue.slots());
        proof {
            if old(self).tidy() {
                tidy_follows(*old(self), *self, guild);
            }
        }
        closed
    }
}

/// Within a guild the relay plays in the order of arrival: while an earlier
/// message waits and has not been dropped, the next source handed out is never
/// a later message, whichever of the two was rendered first.
pub proof fn relay_plays_in_arrival_order(
    relay: RelayPipeline,
    guild: u64,
    earlier: int,
    later: int,
)
    requires
        relay.wf(),
        0 <= earlier < later < relay.slots_of(guild).len(),
        relay.slots_of(guild)[earlier].state != SlotState::Dropped,
    ensures
        turn(relay.slots_of(guild)) != Some(relay.slots_of(guild)[later].message),
{
    assert(relay.queues@.contains_key(guild));
    earlier_message_plays_first(relay.slots_of(guild), earlier, later);
}

/// A guild without a live session relays nothing: whoever wrote the message
/// and wherever, it is not to be spoken, so no synthesis is asked for.
pub proof fn no_session_no_relay(
    calls: Map<u64, CallEntry>,
    bindings: Set<RelayBinding>,
    author_is_bot: bool,
    guild: u64,
    channel: u64,
)
    requires
        session_in(calls, guild) is None,
    ensures
        !admits(calls, bindings, author_is_bot, guild, channel),
{
}

} // verus!
