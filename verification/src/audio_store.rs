//! Rendered audio, held from rendering until it has been played or given up.

use vstd::prelude::*;
use std::collections::HashMap;

verus! {

broadcast use vstd::std_specs::hash::group_hash_axioms;

/// Names one buffer of the store by the message it was rendered for.
#[derive(Clone, Copy, Debug, PartialEq, Eq, Structural)]
pub struct AudioHandle {
    pub key: u64,
}

/// Why the store could not serve.
#[derive(Clone, Copy, Debug, PartialEq, Eq, Structural)]
pub enum IoError {
    /// A buffer is already held under the key.
    Duplicate,
    /// No buffer is held under the key.
    Missing,
}

/// The buffers held, by key.
pub struct TransientAudioStore {
    buffers: HashMap<u64, Vec<u8>>,
}

impl View for TransientAudioStore {
    type V = Map<u64, Seq<u8>>;

    closed spec fn view(&self) -> Map<u64, Seq<u8>> {
        self.buffers@.map_values(|bytes: Vec<u8>| bytes@)
    }
}

impl TransientAudioStore {
    /// A store that holds nothing.
    pub fn new() -> (store: Self)
        ensures
            store@ == Map::<u64, Seq<u8>>::empty(),
    {
        let store = TransientAudioStore { buffers: HashMap::new() };
        assert(store@ =~= Map::<u64, Seq<u8>>::empty());
        store
    }

    /// Whether a buffer is held under `key`.
    pub fn holds(&self, key: u64) -> (held: bool)
        ensures
            held == self@.contains_key(key),
    {
        self.buffers.contains_key(&key)
    }

    /// Stores `bytes` under `key`. A key in use is refused and nothing
    /// changes.
    pub fn acquire(&mut self, key: u64, bytes: Vec<u8>) -> (r: Result<AudioHandle, IoError>)
        ensures
            old(self)@.contains_key(key) ==> r == Err::<AudioHandle, IoError>(IoError::Duplicate)
                && final(self)@ == old(self)@,
            !old(self)@.contains_key(key) ==> r == Ok::<AudioHandle, IoError>(
                (AudioHandle { key }),
            ) && final(self)@ == old(self)@.insert(key, bytes@),
    {
        if self.buffers.contains_key(&key) {
            return Err(IoError::Duplicate);
        }
        self.buffers.insert(key, bytes);
        assert(self@ =~= old(self)@.insert(key, bytes@));
        Ok(AudioHandle { key })
    }

    /// Gives the buffer up. Says whether it was still held; releasing again
    /// changes nothing.
    pub fn release(&mut self, handle: AudioHandle) -> (was_held: bool)
        ensures
            final(self)@ == old(self)@.remove(handle.key),
            !final(self)@.contains_key(handle.key),
            was_held == old(self)@.contains_key(handle.key),
            !was_held ==> final(self)@ == old(self)@,
    {
        let gone = self.buffers.remove(&handle.key);
        assert(self@ =~= old(self)@.remove(handle.key));
        assert(!old(self)@.contains_key(handle.key) ==> self@ =~= old(self)@);
        gone.is_some()
    }

    /// Hands the buffer out for its one use and gives it up in the same step,
    /// so that it cannot outlive that use.
    pub fn take(&mut self, handle: AudioHandle) -> (r: Result<Vec<u8>, IoError>)
        ensures
            final(self)@ == old(self)@.remove(handle.key),
            match r {
                Ok(bytes) => old(self)@.contains_key(handle.key) && bytes@ == old(
                    self,
                )@[handle.key],
                Err(e) => !old(self)@.contains_key(handle.key) && e == IoError::Missing,
            },
    {
        let gone = self.buffers.remove(&handle.key);
        assert(self@ =~= old(self)@.remove(handle.key));
        match gone {
            Some(bytes) => Ok(bytes),
            None => Err(IoError::Missing),
        }
    }

    /// Lends the buffer to `use_audio` for its one use. The buffer has left
    /// the store before the use begins, so it is released however the use
    /// ends. A buffer that is not held is reported and nothing is called.
    pub fn scoped<R, F: FnOnce(Vec<u8>) -> R>(&mut self, handle: AudioHandle, use_audio: F) -> (r:
        Result<R, IoError>)
        requires
            forall|bytes: Vec<u8>|
                old(self)@.contains_key(handle.key) && bytes@ == old(self)@[handle.key]
                    ==> use_audio.requires((bytes,)),
        ensures
            final(self)@ == old(self)@.remove(handle.key),
            r is Ok <==> old(self)@.contains_key(handle.key),
            r is Ok ==> (exists|bytes: Vec<u8>|
                bytes@ == old(self)@[handle.key] && #[trigger] use_audio.ensures(
                    (bytes,),
                    r->Ok_0,
                )),
            r is Err ==> r->Err_0 == IoError::Missing,
    {
        let taken = self.take(handle);
        match taken {
            Ok(bytes) => {
                let ghost lent = bytes;
                let out = use_audio(bytes);
                let r: Result<R, IoError> = Ok(out);
                assert(lent@ == old(self)@[handle.key] && use_audio.ensures((lent,), r->Ok_0));
                r
            },
            Err(e) => Err(e),
        }
    }
}

/// A buffer that was acquired and released is gone, the rest of the store is
/// as before, and a second release changes nothing.
pub proof fn released_exactly_once(before: Map<u64, Seq<u8>>, key: u64, bytes: Seq<u8>)
    requires
        !before.contains_key(key),
    ensures
        before.insert(key, bytes).remove(key) == before,
        before.insert(key, bytes).remove(key).remove(key) == before,
{
    assert(before.insert(key, bytes).remove(key) =~= before);
}

} // verus!
