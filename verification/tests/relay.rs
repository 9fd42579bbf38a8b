use voice_relay::audio_store::{AudioHandle, IoError, TransientAudioStore};
use voice_relay::pipeline::{ChatMessage, JoinStep, RelayError, RelayPipeline};
use voice_relay::playback::PlaybackQueue;
use voice_relay::registry::{
    CallRegistry, CallState, ConnectStep, ConnectionError, PlaybackError, VoiceSession,
};
use voice_relay::subscriptions::RelaySubscriptions;
use voice_relay::text::{audio_path, push_decimal, push_signed};
use voice_relay::voicevox::{
    read_audio_query, read_synthesis, render_call, HttpOutcome, QueryDocument, SynthesisError,
    VoiceVox,
};

const GUILD: u64 = 11;
const VOICE: u64 = 22;
const TEXT: u64 = 33;

fn client() -> VoiceVox {
    VoiceVox::new(String::from("http://localhost:50021"))
}

fn answered(status: u16, body: &[u8]) -> HttpOutcome {
    HttpOutcome::Answered { status, body: body.to_vec() }
}

fn message(id: u64, text: &str) -> ChatMessage {
    ChatMessage { author_is_bot: false, guild: GUILD, channel: TEXT, id, text: String::from(text) }
}

fn connected_relay() -> RelayPipeline {
    let mut relay = RelayPipeline::new(client(), 1);
    assert_eq!(relay.join(GUILD, Some(VOICE), TEXT), JoinStep::Connect(ConnectStep::Begin));
    assert_eq!(
        relay.joined(GUILD, TEXT, true),
        Ok(VoiceSession { guild: GUILD, voice_channel: VOICE })
    );
    relay
}

fn session() -> VoiceSession {
    VoiceSession { guild: GUILD, voice_channel: VOICE }
}

#[test]
fn decimal_of_zero_and_limits() {
    let mut s = String::new();
    push_decimal(&mut s, 0);
    assert_eq!(s, "0");
    let mut s = String::from("x");
    push_decimal(&mut s, 1234567890);
    assert_eq!(s, "x1234567890");
    let mut s = String::new();
    push_decimal(&mut s, u64::MAX);
    assert_eq!(s, "18446744073709551615");
}

#[test]
fn signed_decimal_keeps_the_sign() {
    let mut s = String::new();
    push_signed(&mut s, -3);
    assert_eq!(s, "-3");
    let mut s = String::new();
    push_signed(&mut s, i32::MIN);
    assert_eq!(s, "-2147483648");
    let mut s = String::new();
    push_signed(&mut s, i32::MAX);
    assert_eq!(s, "2147483647");
}

#[test]
fn audio_path_names_the_message() {
    assert_eq!(audio_path(12), "./audio/12.wav");
    assert_eq!(audio_path(0), "./audio/0.wav");
    assert_ne!(audio_path(1), audio_path(10));
}

#[test]
fn query_address_carries_speaker_and_text() {
    let v = client();
    assert_eq!(v.url(), "http://localhost:50021");
    assert_eq!(
        v.get_audio_query("hello", 1),
        "http://localhost:50021/audio_query?speaker=1&text=hello"
    );
    assert_eq!(
        v.get_audio_query("", -7),
        "http://localhost:50021/audio_query?speaker=-7&text="
    );
    assert_eq!(v.synthesis_address(14), "http://localhost:50021/synthesis?speaker=14");
}

#[test]
fn query_answer_is_judged_in_order() {
    assert_eq!(
        read_audio_query(1, &HttpOutcome::Failed).err(),
        Some(SynthesisError::Transport)
    );
    assert_eq!(
        read_audio_query(1, &answered(500, b"{}")).err(),
        Some(SynthesisError::Status(500))
    );
    assert_eq!(
        read_audio_query(1, &answered(199, b"{}")).err(),
        Some(SynthesisError::Status(199))
    );
    assert_eq!(
        read_audio_query(1, &answered(300, b"not json")).err(),
        Some(SynthesisError::Status(300))
    );
    assert_eq!(
        read_audio_query(1, &answered(200, b"not json")).err(),
        Some(SynthesisError::Malformed)
    );
    assert_eq!(read_audio_query(1, &answered(200, b"")).err(), Some(SynthesisError::Malformed));
    let document = read_audio_query(4, &answered(299, b" { \"speed\" : 1 } ")).unwrap();
    assert_eq!(document.speaker, 4);
    assert_eq!(document.value["speed"], serde_json::Value::from(1));
}

#[test]
fn render_answer_is_judged_in_order() {
    assert_eq!(read_synthesis(HttpOutcome::Failed), Err(SynthesisError::Transport));
    assert_eq!(read_synthesis(answered(404, b"RIFF")), Err(SynthesisError::Status(404)));
    assert_eq!(read_synthesis(answered(200, b"RIFF")), Ok(b"RIFF".to_vec()));
    assert_eq!(read_synthesis(answered(204, b"")), Ok(Vec::new()));
}

#[test]
fn render_request_carries_the_encoded_document() {
    let v = client();
    let document = read_audio_query(1, &answered(200, b" { \"speed\" : 1, \"kana\": \"a\" } ")).unwrap();
    let call = v.synthe(1, &document).unwrap();
    assert_eq!(call.url, "http://localhost:50021/synthesis?speaker=1");
    assert_eq!(call.body, b"{\"kana\":\"a\",\"speed\":1}".to_vec());
}

#[test]
fn render_request_refuses_another_speaker() {
    let v = client();
    let document = QueryDocument { speaker: 2, value: serde_json::Value::Null };
    assert_eq!(v.synthe(1, &document).err(), Some(SynthesisError::SpeakerMismatch));
    assert_eq!(v.synthe(2, &document).unwrap().body, b"null".to_vec());
}

#[test]
fn render_call_follows_the_encoding() {
    let call = render_call(String::from("u"), Ok(vec![1, 2, 3])).unwrap();
    assert_eq!(call.url, "u");
    assert_eq!(call.body, vec![1, 2, 3]);
    let failure = serde_json::from_slice::<serde_json::Value>(b"{").unwrap_err();
    assert_eq!(
        render_call(String::from("u"), Err(failure)).err(),
        Some(SynthesisError::Malformed)
    );
}

#[test]
fn subscribe_then_unsubscribe_leaves_unsubscribed() {
    let mut subs = RelaySubscriptions::new();
    assert!(!subs.is_subscribed(GUILD, TEXT));
    subs.subscribe(GUILD, TEXT);
    assert!(subs.is_subscribed(GUILD, TEXT));
    subs.unsubscribe(GUILD, TEXT);
    assert!(!subs.is_subscribed(GUILD, TEXT));
}

#[test]
fn subscription_changes_are_idempotent() {
    let mut subs = RelaySubscriptions::new();
    subs.subscribe(GUILD, TEXT);
    subs.subscribe(GUILD, TEXT);
    subs.subscribe(GUILD, TEXT + 1);
    subs.unsubscribe(GUILD, TEXT);
    assert!(!subs.is_subscribed(GUILD, TEXT));
    assert!(subs.is_subscribed(GUILD, TEXT + 1));
    subs.unsubscribe(GUILD, TEXT);
    subs.unsubscribe(GUILD + 1, TEXT + 1);
    assert!(subs.is_subscribed(GUILD, TEXT + 1));
}

#[test]
fn drop_guild_spares_other_guilds() {
    let mut subs = RelaySubscriptions::new();
    subs.subscribe(GUILD, TEXT);
    subs.subscribe(GUILD, TEXT + 1);
    subs.subscribe(GUILD + 1, TEXT);
    subs.drop_guild(GUILD);
    assert!(!subs.is_subscribed(GUILD, TEXT));
    assert!(!subs.is_subscribed(GUILD, TEXT + 1));
    assert!(subs.is_subscribed(GUILD + 1, TEXT));
}

#[test]
fn concurrent_connects_collapse_to_one_attempt() {
    let mut calls = CallRegistry::new();
    assert_eq!(calls.state(GUILD), CallState::Disconnected);
    assert_eq!(calls.connect(GUILD, VOICE), ConnectStep::Begin);
    assert_eq!(calls.state(GUILD), CallState::Connecting);
    assert_eq!(calls.get(GUILD), None);
    assert_eq!(calls.connect(GUILD, VOICE + 1), ConnectStep::Await);
    assert_eq!(calls.complete(GUILD, true), Ok(session()));
    assert_eq!(calls.complete(GUILD, false), Ok(session()));
    assert_eq!(calls.connect(GUILD, VOICE + 1), ConnectStep::Established(session()));
    assert_eq!(calls.get(GUILD), Some(session()));
    assert_eq!(calls.state(GUILD), CallState::Connected);
    assert_eq!(calls.get(GUILD + 1), None);
}

#[test]
fn failed_connect_returns_to_disconnected() {
    let mut calls = CallRegistry::new();
    assert_eq!(calls.connect(GUILD, VOICE), ConnectStep::Begin);
    assert_eq!(calls.complete(GUILD, false), Err(ConnectionError::Failed));
    assert_eq!(calls.state(GUILD), CallState::Disconnected);
    assert_eq!(calls.complete(GUILD, true), Err(ConnectionError::Abandoned));
    assert_eq!(calls.state(GUILD), CallState::Disconnected);
    assert_eq!(calls.connect(GUILD, VOICE), ConnectStep::Begin);
}

#[test]
fn disconnect_without_session_is_a_no_op() {
    let mut calls = CallRegistry::new();
    assert_eq!(calls.disconnect(GUILD), None);
    assert_eq!(calls.state(GUILD), CallState::Disconnected);
    calls.connect(GUILD, VOICE);
    assert_eq!(calls.disconnect(GUILD), None);
    assert_eq!(calls.state(GUILD), CallState::Disconnected);
    calls.connect(GUILD, VOICE);
    calls.complete(GUILD, true).unwrap();
    assert_eq!(calls.disconnect(GUILD), Some(session()));
    assert_eq!(calls.disconnect(GUILD), None);
    assert_eq!(calls.get(GUILD), None);
}

#[test]
fn play_into_a_destroyed_session_is_reported() {
    let mut calls = CallRegistry::new();
    assert_eq!(calls.play(session()), Err(PlaybackError::SessionGone));
    calls.connect(GUILD, VOICE);
    assert_eq!(calls.play(session()), Err(PlaybackError::SessionGone));
    calls.complete(GUILD, true).unwrap();
    assert_eq!(calls.play(session()), Ok(()));
    assert_eq!(
        calls.play(VoiceSession { guild: GUILD, voice_channel: VOICE + 1 }),
        Err(PlaybackError::SessionGone)
    );
    calls.disconnect(GUILD);
    assert_eq!(calls.play(session()), Err(PlaybackError::SessionGone));
}

#[test]
fn store_refuses_a_duplicate_key() {
    let mut store = TransientAudioStore::new();
    assert_eq!(store.acquire(5, vec![1, 2]), Ok(AudioHandle { key: 5 }));
    assert!(store.holds(5));
    assert_eq!(store.acquire(5, vec![3]), Err(IoError::Duplicate));
    assert_eq!(store.take(AudioHandle { key: 5 }), Ok(vec![1, 2]));
    assert!(!store.holds(5));
    assert_eq!(store.take(AudioHandle { key: 5 }), Err(IoError::Missing));
}

#[test]
fn release_is_idempotent() {
    let mut store = TransientAudioStore::new();
    let handle = store.acquire(5, vec![1, 2]).unwrap();
    store.acquire(6, vec![9]).unwrap();
    assert!(store.release(handle));
    assert!(!store.release(handle));
    assert!(!store.holds(5));
    assert!(store.holds(6));
    assert_eq!(store.acquire(5, vec![7]), Ok(AudioHandle { key: 5 }));
}

#[test]
fn queue_plays_in_arrival_order() {
    let mut queue = PlaybackQueue::new();
    assert!(queue.enqueue(1));
    assert!(queue.enqueue(2));
    assert!(queue.enqueue(3));
    assert!(!queue.enqueue(2));
    assert_eq!(queue.waiting(), 3);
    assert_eq!(queue.message_at(2), Some(3));
    assert_eq!(queue.message_at(3), None);
    assert!(queue.mark(3, true));
    assert!(queue.mark(2, true));
    assert!(!queue.mark(2, false));
    assert!(!queue.mark(9, true));
    assert_eq!(queue.next(), None);
    assert_eq!(queue.waiting(), 3);
    assert!(queue.mark(1, false));
    assert_eq!(queue.next(), Some(2));
    assert_eq!(queue.now_playing(), Some(2));
    assert_eq!(queue.waiting(), 1);
    assert_eq!(queue.next(), None);
    assert_eq!(queue.waiting(), 1);
    queue.finished();
    assert_eq!(queue.now_playing(), None);
    assert_eq!(queue.next(), Some(3));
    queue.finished();
    assert_eq!(queue.next(), None);
    assert_eq!(queue.waiting(), 0);
}

#[test]
fn message_without_session_asks_for_no_synthesis() {
    let mut relay = RelayPipeline::new(client(), 1);
    relay.bindings.subscribe(GUILD, TEXT);
    assert!(!relay.relays(false, GUILD, TEXT));
    assert_eq!(relay.accept(&message(1, "hello")), None);
    assert_eq!(relay.join(GUILD, Some(VOICE), TEXT), JoinStep::Connect(ConnectStep::Begin));
    assert_eq!(relay.accept(&message(2, "hello")), None);
    assert!(relay.queues.get(&GUILD).map_or(true, |q| q.waiting() == 0));
}

#[test]
fn bot_and_unsubscribed_messages_are_ignored() {
    let mut relay = connected_relay();
    let mut own = message(1, "echo");
    own.author_is_bot = true;
    assert_eq!(relay.accept(&own), None);
    let mut elsewhere = message(2, "hi");
    elsewhere.channel = TEXT + 1;
    assert_eq!(relay.accept(&elsewhere), None);
    let mut other_guild = message(3, "hi");
    other_guild.guild = GUILD + 1;
    assert_eq!(relay.accept(&other_guild), None);
    assert!(relay.relays(false, GUILD, TEXT));
    assert!(!relay.relays(true, GUILD, TEXT));
}

#[test]
fn join_without_voice_channel_changes_nothing() {
    let mut relay = RelayPipeline::new(client(), 1);
    assert_eq!(relay.join(GUILD, None, TEXT), JoinStep::NotInVoice);
    assert_eq!(relay.calls.state(GUILD), CallState::Disconnected);
    assert!(!relay.bindings.is_subscribed(GUILD, TEXT));
}

#[test]
fn failed_join_subscribes_nothing() {
    let mut relay = RelayPipeline::new(client(), 1);
    relay.join(GUILD, Some(VOICE), TEXT);
    assert_eq!(relay.joined(GUILD, TEXT, false), Err(ConnectionError::Failed));
    assert_eq!(relay.calls.state(GUILD), CallState::Disconnected);
    assert!(!relay.bindings.is_subscribed(GUILD, TEXT));
    assert_eq!(relay.joined(GUILD, TEXT, true), Err(ConnectionError::Abandoned));
    assert!(!relay.bindings.is_subscribed(GUILD, TEXT));
}

#[test]
fn joined_message_is_queried_rendered_and_played_once() {
    let mut relay = connected_relay();
    assert_eq!(relay.calls.get(GUILD), Some(session()));
    assert!(relay.bindings.is_subscribed(GUILD, TEXT));
    let request = relay.accept(&message(77, "hello"));
    assert_eq!(
        request,
        Some(String::from("http://localhost:50021/audio_query?speaker=1&text=hello"))
    );
    assert_eq!(relay.accept(&message(77, "hello")), None);
    let call = relay.query_answered(GUILD, 77, &answered(200, b"{\"speed\":1}")).unwrap();
    assert_eq!(call.url, "http://localhost:50021/synthesis?speaker=1");
    assert_eq!(call.body, b"{\"speed\":1}".to_vec());
    assert_eq!(
        relay.rendered(GUILD, 77, answered(200, b"RIFFdata")),
        Ok(AudioHandle { key: 77 })
    );
    assert!(relay.store.holds(77));
    let playback = relay.next_play(session()).unwrap().unwrap();
    assert_eq!(playback.session, session());
    assert_eq!(playback.message, 77);
    assert_eq!(playback.audio, b"RIFFdata".to_vec());
    assert!(!relay.store.holds(77));
    assert!(relay.next_play(session()).unwrap().is_none());
    relay.play_finished(GUILD);
    assert!(relay.next_play(session()).unwrap().is_none());
}

#[test]
fn transport_error_plays_nothing_and_keeps_the_session() {
    let mut relay = connected_relay();
    assert!(relay.accept(&message(1, "a")).is_some());
    assert_eq!(
        relay.query_answered(GUILD, 1, &HttpOutcome::Failed).err(),
        Some(SynthesisError::Transport)
    );
    assert!(relay.next_play(session()).unwrap().is_none());
    assert_eq!(relay.calls.state(GUILD), CallState::Connected);
    assert!(relay.accept(&message(2, "b")).is_some());
    relay.query_answered(GUILD, 2, &answered(200, b"{}")).unwrap();
    assert_eq!(
        relay.rendered(GUILD, 2, HttpOutcome::Failed),
        Err(RelayError::Synthesis(SynthesisError::Transport))
    );
    assert!(!relay.store.holds(2));
    assert!(relay.next_play(session()).unwrap().is_none());
    assert_eq!(relay.calls.state(GUILD), CallState::Connected);
    assert!(relay.accept(&message(3, "c")).is_some());
    assert_eq!(relay.rendered(GUILD, 3, answered(200, b"x")), Ok(AudioHandle { key: 3 }));
    assert_eq!(relay.next_play(session()).unwrap().unwrap().message, 3);
}

#[test]
fn malformed_and_status_errors_drop_the_message() {
    let mut relay = connected_relay();
    assert!(relay.accept(&message(1, "a")).is_some());
    assert_eq!(
        relay.query_answered(GUILD, 1, &answered(200, b"<html>")).err(),
        Some(SynthesisError::Malformed)
    );
    assert!(relay.accept(&message(2, "b")).is_some());
    assert_eq!(
        relay.rendered(GUILD, 2, answered(503, b"")),
        Err(RelayError::Synthesis(SynthesisError::Status(503)))
    );
    assert!(relay.next_play(session()).unwrap().is_none());
    assert_eq!(relay.queues.get(&GUILD).unwrap().waiting(), 0);
}

#[test]
fn earlier_message_plays_first_whatever_renders_first() {
    let mut relay = connected_relay();
    assert!(relay.accept(&message(1, "first")).is_some());
    assert!(relay.accept(&message(2, "second")).is_some());
    assert_eq!(relay.rendered(GUILD, 2, answered(200, b"two")), Ok(AudioHandle { key: 2 }));
    assert!(relay.next_play(session()).unwrap().is_none());
    assert!(relay.store.holds(2));
    assert_eq!(relay.rendered(GUILD, 1, answered(200, b"one")), Ok(AudioHandle { key: 1 }));
    let first = relay.next_play(session()).unwrap().unwrap();
    assert_eq!((first.message, first.audio), (1, b"one".to_vec()));
    assert!(relay.next_play(session()).unwrap().is_none());
    assert!(relay.store.holds(2));
    relay.play_finished(GUILD);
    let second = relay.next_play(session()).unwrap().unwrap();
    assert_eq!((second.message, second.audio), (2, b"two".to_vec()));
    assert!(!relay.store.holds(1));
    assert!(!relay.store.holds(2));
}

#[test]
fn duplicate_buffer_key_drops_the_message() {
    let mut relay = connected_relay();
    relay.store.acquire(1, vec![0]).unwrap();
    assert!(relay.accept(&message(1, "a")).is_some());
    assert_eq!(
        relay.rendered(GUILD, 1, answered(200, b"x")),
        Err(RelayError::Io(IoError::Duplicate))
    );
    assert!(relay.next_play(session()).unwrap().is_none());
}

#[test]
fn missing_buffer_is_reported_and_frees_the_turn() {
    let mut relay = connected_relay();
    assert!(relay.accept(&message(1, "a")).is_some());
    assert!(relay.accept(&message(2, "b")).is_some());
    relay.rendered(GUILD, 1, answered(200, b"one")).unwrap();
    relay.rendered(GUILD, 2, answered(200, b"two")).unwrap();
    assert!(relay.store.release(AudioHandle { key: 1 }));
    assert_eq!(relay.next_play(session()).err(), Some(RelayError::Io(IoError::Missing)));
    assert_eq!(relay.next_play(session()).unwrap().unwrap().message, 2);
}

#[test]
fn leave_releases_what_waited_and_drops_bindings() {
    let mut relay = connected_relay();
    relay.bindings.subscribe(GUILD + 1, TEXT + 1);
    relay.store.acquire(900, vec![9]).unwrap();
    assert!(relay.accept(&message(1, "a")).is_some());
    assert!(relay.accept(&message(2, "b")).is_some());
    relay.rendered(GUILD, 1, answered(200, b"one")).unwrap();
    assert_eq!(relay.leave(GUILD), Some(session()));
    assert!(!relay.store.holds(1));
    assert!(relay.store.holds(900));
    assert!(!relay.bindings.is_subscribed(GUILD, TEXT));
    assert!(relay.bindings.is_subscribed(GUILD + 1, TEXT + 1));
    assert_eq!(relay.calls.state(GUILD), CallState::Disconnected);
    assert_eq!(
        relay.rendered(GUILD, 2, answered(200, b"two")),
        Err(RelayError::Playback(PlaybackError::SessionGone))
    );
    assert!(!relay.store.holds(2));
    assert_eq!(
        relay.next_play(session()).err(),
        Some(RelayError::Playback(PlaybackError::SessionGone))
    );
    assert_eq!(relay.leave(GUILD), None);
    assert_eq!(relay.accept(&message(3, "c")), None);
}

#[test]
fn scoped_use_releases_the_buffer() {
    let mut store = TransientAudioStore::new();
    let handle = store.acquire(5, vec![1, 2, 3]).unwrap();
    assert_eq!(store.scoped(handle, |audio| audio.len()), Ok(3));
    assert!(!store.holds(5));
    assert_eq!(store.scoped(handle, |audio| audio.len()), Err(IoError::Missing));
    let handle = store.acquire(6, vec![4]).unwrap();
    let failed: Result<Result<u8, ()>, IoError> = store.scoped(handle, |_| Err(()));
    assert_eq!(failed, Ok(Err(())));
    assert!(!store.holds(6));
}

#[test]
fn join_on_a_connected_guild_subscribes_the_channel() {
    let mut relay = connected_relay();
    assert!(!relay.bindings.is_subscribed(GUILD, TEXT + 5));
    assert_eq!(
        relay.join(GUILD, Some(VOICE + 1), TEXT + 5),
        JoinStep::Connect(ConnectStep::Established(session()))
    );
    assert!(relay.bindings.is_subscribed(GUILD, TEXT + 5));
    assert!(relay.bindings.is_subscribed(GUILD, TEXT));
    assert_eq!(relay.calls.get(GUILD), Some(session()));
    assert_eq!(relay.join(GUILD + 1, Some(VOICE), TEXT + 6), JoinStep::Connect(ConnectStep::Begin));
    assert_eq!(relay.join(GUILD + 1, Some(VOICE), TEXT + 7), JoinStep::Connect(ConnectStep::Await));
    assert!(!relay.bindings.is_subscribed(GUILD + 1, TEXT + 7));
}
