//! The text channels whose messages are read aloud, guild by guild.

use vstd::prelude::*;

verus! {

/// Marks that the messages of one text channel of one guild are spoken.
#[derive(Clone, Copy, Debug, PartialEq, Eq, Structural)]
pub struct RelayBinding {
    pub guild: u64,
    pub channel: u64,
}

/// The set of bindings in force.
pub struct RelaySubscriptions {
    bindings: Vec<RelayBinding>,
}

impl View for RelaySubscriptions {
    type V = Set<RelayBinding>;

    closed spec fn view(&self) -> Set<RelayBinding> {
        Set::new(|b: RelayBinding| self.bindings@.contains(b))
    }
}

/// Whether a sweep for `guild`, narrowed to `channel` where one is given,
/// takes `b` away.
pub open spec fn swept(b: RelayBinding, guild: u64, channel: Option<u64>) -> bool {
    b.guild == guild && match channel {
        Some(c) => b.channel == c,
        None => true,
    }
}

impl RelaySubscriptions {
    /// No bindings.
    pub fn new() -> (subs: Self)
        ensures
            subs@ == Set::<RelayBinding>::empty(),
    {
        let subs = RelaySubscriptions { bindings: Vec::new() };
        assert(subs@ =~= Set::<RelayBinding>::empty());
        subs
    }

    /// Whether the channel's messages are spoken.
    pub fn is_subscribed(&self, guild: u64, channel: u64) -> (found: bool)
        ensures
            found == self@.contains((RelayBinding { guild, channel })),
    {
        let mut i: usize = 0;
        while i < self.bindings.len()
            invariant
                i <= self.bindings.len(),
                forall|j: int|
                    0 <= j < i ==> self.bindings@[j] != (RelayBinding { guild, channel }),
            decreases self.bindings.len() - i,
        {
            let b = self.bindings[i];
            if b.guild == guild && b.channel == channel {
                return true;
            }
            i += 1;
        }
        false
    }

    /// Adds the binding. Adding one that is present changes nothing.
    pub fn subscribe(&mut self, guild: u64, channel: u64)
        ensures
            final(self)@ == old(self)@.insert((RelayBinding { guild, channel })),
    {
        if !self.is_subscribed(guild, channel) {
            self.bindings.push(RelayBinding { guild, channel });
            assert forall|b: RelayBinding| #[trigger]
                self.bindings@.contains(b) <==> old(self).bindings@.contains(b) || b == (
                RelayBinding { guild, channel }) by {
                if old(self).bindings@.contains(b) {
                    let j = choose|j: int|
                        0 <= j < old(self).bindings@.len() && old(self).bindings@[j] == b;
                    assert(self.bindings@[j] == b);
                }
                if b == (RelayBinding { guild, channel }) {
                    assert(self.bindings@[self.bindings@.len() - 1] == b);
                }
            }
        }
        assert(self@ =~= old(self)@.insert((RelayBinding { guild, channel })));
    }

    /// Removes the binding. Removing one that is absent changes nothing.
    pub fn unsubscribe(&mut self, guild: u64, channel: u64)
        ensures
            final(self)@ == old(self)@.remove((RelayBinding { guild, channel })),
    {
        self.sweep(guild, Some(channel));
        assert(self@ =~= old(self)@.remove((RelayBinding { guild, channel })));
    }

    /// Removes every binding of `guild`, as when its call ends.
    pub fn drop_guild(&mut self, guild: u64)
        ensures
            final(self)@ == old(self)@.filter(|b: RelayBinding| b.guild != guild),
    {
        self.sweep(guild, None);
        assert(self@ =~= old(self)@.filter(|b: RelayBinding| b.guild != guild));
    }

    fn sweep(&mut self, guild: u64, channel: Option<u64>)
        ensures
            forall|b: RelayBinding| #[trigger]
                final(self)@.contains(b) <==> old(self)@.contains(b) && !swept(b, guild, channel),
    {
        let mut kept: Vec<RelayBinding> = Vec::new();
        let mut i: usize = 0;
        while i < self.bindings.len()
            invariant
                i <= self.bindings.len(),
                forall|k: int|
                    0 <= k < kept@.len() ==> self.bindings@.contains(#[trigger] kept@[k])
                        && !swept(kept@[k], guild, channel),
                forall|j: int|
                    0 <= j < i && !swept(#[trigger] self.bindings@[j], guild, channel)
                        ==> kept@.contains(self.bindings@[j]),
            decreases self.bindings.len() - i,
        {
            let b = self.bindings[i];
            let gone = b.guild == guild && match channel {
                Some(c) => b.channel == c,
                None => true,
            };
            if !gone {
                let ghost before = kept@;
                kept.push(b);
                assert(kept@[kept@.len() - 1] == b);
                assert forall|j: int|
                    0 <= j < i + 1 && !swept(#[trigger] self.bindings@[j], guild, channel)
                    implies kept@.contains(self.bindings@[j]) by {
                    if j < i {
                        let k = choose|k: int|
                            0 <= k < before.len() && before[k] == self.bindings@[j];
                        assert(kept@[k] == self.bindings@[j]);
                    }
                }
            }
            i += 1;
        }
        self.bindings = kept;
    }
}

/// Subscribing a channel and then unsubscribing it leaves it unsubscribed,
/// and every other binding as it was before the two calls.
pub proof fn subscribe_then_unsubscribe(
    before: RelaySubscriptions,
    between: RelaySubscriptions,
    after: RelaySubscriptions,
    guild: u64,
    channel: u64,
)
    requires
        between@ == before@.insert((RelayBinding { guild, channel })),
        after@ == between@.remove((RelayBinding { guild, channel })),
    ensures
        !after@.contains((RelayBinding { guild, channel })),
        after@ == before@.remove((RelayBinding { guild, channel })),
{
    assert(after@ =~= before@.remove((RelayBinding { guild, channel })));
}

/// Subscribing twice is subscribing once, and unsubscribing twice is
/// unsubscribing once.
pub proof fn subscription_changes_are_idempotent(
    start: RelaySubscriptions,
    once: RelaySubscriptions,
    twice: RelaySubscriptions,
    guild: u64,
    channel: u64,
    adding: bool,
)
    requires
        adding ==> once@ == start@.insert((RelayBinding { guild, channel })) && twice@
            == once@.insert((RelayBinding { guild, channel })),
        !adding ==> once@ == start@.remove((RelayBinding { guild, channel })) && twice@
            == once@.remove((RelayBinding { guild, channel })),
    ensures
        twice@ == once@,
{
    assert(twice@ =~= once@);
}

} // verus!
