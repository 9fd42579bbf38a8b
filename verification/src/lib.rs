//! Relays chat messages into speech that is played into a voice call.
//!
//! The crate holds the decisions of the relay: which channels are read aloud,
//! which guild has a call, how a synthesis request is addressed and its answer
//! judged, how long a rendered buffer lives, and in which order rendered
//! messages reach a call. Network and gateway traffic is left to the caller,
//! which performs the actions returned here and reports their outcomes.

pub mod audio_store;
pub mod pipeline;
pub mod playback;
pub mod registry;
pub mod subscriptions;
pub mod text;
pub mod voicevox;
