//! The order in which the rendered messages of one guild reach its call:
//! first come, first played, one at a time.

use vstd::prelude::*;

verus! {

/// How far a queued message has come.
#[derive(Clone, Copy, Debug, PartialEq, Eq, Structural)]
pub enum SlotState {
    /// Its audio is still being synthesized.
    Pending,
    /// Its audio is stored and waits for its turn.
    Ready,
    /// It will not be played.
    Dropped,
}

/// The place of one message in the queue.
#[derive(Clone, Copy, Debug, PartialEq, Eq, Structural)]
pub struct Slot {
    pub message: u64,
    pub state: SlotState,
}

/// Whether `message` has a slot in `slots`.
pub open spec fn queued(slots: Seq<Slot>, message: u64) -> bool {
    exists|i: int| 0 <= i < slots.len() && (#[trigger] slots[i]).message == message
}

/// No message has two slots.
pub open spec fn distinct(slots: Seq<Slot>) -> bool {
    forall|i: int, j: int|
        0 <= i < j < slots.len() ==> (#[trigger] slots[i]).message != (#[trigger] slots[j]).message
}

/// `slots` without the dropped messages at its front.
pub open spec fn settle(slots: Seq<Slot>) -> Seq<Slot>
    decreases slots.len(),
{
    if slots.len() > 0 && slots[0].state == SlotState::Dropped {
        settle(slots.skip(1))
    } else {
        slots
    }
}

/// The message whose turn it is: the earliest one not dropped, once it is
/// ready. While that one is pending, nobody's.
pub open spec fn turn(slots: Seq<Slot>) -> Option<u64> {
    let rest = settle(slots);
    if rest.len() > 0 && rest[0].state == SlotState::Ready {
        Some(rest[0].message)
    } else {
        None
    }
}

/// `slots` after the pending slot of `message`, if there is one, has been
/// given `state`.
pub open spec fn marked(slots: Seq<Slot>, message: u64, state: SlotState) -> Seq<Slot> {
    Seq::new(
        slots.len(),
        |i: int|
            if slots[i].message == message && slots[i].state == SlotState::Pending {
                Slot { message, state }
            } else {
                slots[i]
            },
    )
}

/// Whether `message` has a slot that is still pending.
pub open spec fn awaited(slots: Seq<Slot>, message: u64) -> bool {
    exists|i: int|
        0 <= i < slots.len() && (#[trigger] slots[i]).message == message && slots[i].state
            == SlotState::Pending
}

/// Whether `message` has a slot that is ready.
pub open spec fn ready_in(slots: Seq<Slot>, message: u64) -> bool {
    exists|i: int|
        0 <= i < slots.len() && (#[trigger] slots[i]).message == message && slots[i].state
            == SlotState::Ready
}

/// The messages of one guild that wait to be played, in order of arrival,
/// and the one that is playing.
pub struct PlaybackQueue {
    slots: Vec<Slot>,
    playing: Option<u64>,
}

impl PlaybackQueue {
    /// The waiting messages, earliest first.
    pub closed spec fn slots(&self) -> Seq<Slot> {
        self.slots@
    }

    /// The message that is playing, if any.
    pub closed spec fn playing(&self) -> Option<u64> {
        self.playing
    }

    /// No message waits twice.
    pub open spec fn wf(&self) -> bool {
        distinct(self.slots())
    }

    /// A queue in which nothing waits and nothing plays.
    pub fn new() -> (queue: Self)
        ensures
            queue.wf(),
            queue.slots() == Seq::<Slot>::empty(),
            queue.playing() is None,
    {
        PlaybackQueue { slots: Vec::new(), playing: None }
    }

    /// The message that is playing, if any.
    pub fn now_playing(&self) -> (message: Option<u64>)
        ensures
            message == self.playing(),
    {
        self.playing
    }

    /// How many messages wait.
    pub fn waiting(&self) -> (n: usize)
        ensures
            n == self.slots().len(),
    {
        self.slots.len()
    }

    /// The message in the slot at `index`, counted from the front, if the
    /// queue is that long.
    pub fn message_at(&self, index: usize) -> (message: Option<u64>)
        ensures
            message == if index < self.slots().len() {
                Some(self.slots()[index as int].message)
            } else {
                None
            },
    {
        if index < self.slots.len() {
            Some(self.slots[index].message)
        } else {
            None
        }
    }

    fn find(&self, message: u64) -> (at: Option<usize>)
        ensures
            match at {
                Some(i) => i < self.slots().len() && self.slots()[i as int].message == message,
                None => !queued(self.slots(), message),
            },
    {
        let mut i: usize = 0;
        while i < self.slots.len()
            invariant
                i <= self.slots.len(),
                forall|j: int| 0 <= j < i ==> (#[trigger] self.slots@[j]).message != message,
            decreases self.slots.len() - i,
        {
            if self.slots[i].message == message {
                return Some(i);
            }
            i += 1;
        }
        None
    }

    /// Gives `message` the last place, as pending. A message that already
    /// waits keeps its place and nothing changes.
    pub fn enqueue(&mut self, message: u64) -> (added: bool)
        requires
            old(self).wf(),
        ensures
            final(self).wf(),
            final(self).playing() == old(self).playing(),
            added == !queued(old(self).slots(), message),
            added ==> final(self).slots() == old(self).slots().push(
                (Slot { message, state: SlotState::Pending }),
            ),
            !added ==> final(self).slots() == old(self).slots(),
    {
        match self.find(message) {
            Some(_) => false,
            None => {
                self.slots.push(Slot { message, state: SlotState::Pending });
                true
            },
        }
    }

    /// Records that the synthesis of `message` ended: with audio (`ready`) or
    /// without. Only a pending slot changes; says whether one did.
    pub fn mark(&mut self, message: u64, ready: bool) -> (changed: bool)
        requires
            old(self).wf(),
        ensures
            final(self).wf(),
            final(self).playing() == old(self).playing(),
            changed == awaited(old(self).slots(), message),
            final(self).slots() == marked(
                old(self).slots(),
                message,
                if ready {
                    SlotState::Ready
                } else {
                    SlotState::Dropped
                },
            ),
    {
        let state = if ready {
            SlotState::Ready
        } else {
            SlotState::Dropped
        };
        match self.find(message) {
            Some(i) => {
                let slot = self.slots[i];
                if slot.state == SlotState::Pending {
                    self.slots.set(i, Slot { message, state });
                    assert(self.slots@ =~= marked(old(self).slots(), message, state));
                    true
                } else {
                    assert(self.slots@ =~= marked(old(self).slots(), message, state));
                    false
                }
            },
            None => {
                assert(self.slots@ =~= marked(old(self).slots(), message, state));
                false
            },
        }
    }

    /// Hands out the message whose turn it is, and counts it as playing.
    /// While a message is playing nothing is handed out and nothing changes.
    /// Otherwise the dropped messages at the front leave the queue, and the
    /// one behind them is handed out if it is ready.
    pub fn next(&mut self) -> (message: Option<u64>)
        requires
            old(self).wf(),
        ensures
            final(self).wf(),
            match old(self).playing() {
                Some(_) => message is None && final(self).slots() == old(self).slots()
                    && final(self).playing() == old(self).playing(),
                None => message == turn(old(self).slots()) && final(self).playing() == message
                    && final(self).slots() == if message is Some {
                    settle(old(self).slots()).skip(1)
                } else {
                    settle(old(self).slots())
                },
            },
    {
        if self.playing.is_some() {
            return None;
        }
        while self.slots.len() > 0 && self.slots[0].state == SlotState::Dropped
            invariant
                self.playing is None,
                distinct(self.slots@),
                settle(self.slots@) == settle(old(self).slots()),
            decreases self.slots.len(),
        {
            let ghost before = self.slots@;
            self.slots.remove(0);
            assert(self.slots@ =~= before.skip(1));
        }
        if self.slots.len() > 0 && self.slots[0].state == SlotState::Ready {
            let ghost before = self.slots@;
            let head = self.slots.remove(0);
            assert(self.slots@ =~= before.skip(1));
            self.playing = Some(head.message);
            Some(head.message)
        } else {
            None
        }
    }

    /// Records that the playing message has ended, so that the next may play.
    pub fn finished(&mut self)
        ensures
            final(self).slots() == old(self).slots(),
            final(self).playing() is None,
    {
        self.playing = None;
    }
}

/// The dropped front of a queue: `settle` cuts off exactly `k` slots, all of
/// them dropped, and stops at the first slot that is not.
pub proof fn settle_cuts_dropped_front(slots: Seq<Slot>) -> (k: int)
    ensures
        0 <= k <= slots.len(),
        settle(slots) == slots.skip(k),
        forall|i: int| 0 <= i < k ==> (#[trigger] slots[i]).state == SlotState::Dropped,
        k < slots.len() ==> slots[k].state != SlotState::Dropped,
    decreases slots.len(),
{
    if slots.len() > 0 && slots[0].state == SlotState::Dropped {
        let rest = slots.skip(1);
        let k = settle_cuts_dropped_front(rest);
        assert(settle(slots) == settle(rest));
        assert(rest.skip(k) =~= slots.skip(k + 1));
        assert forall|i: int| 0 <= i < k + 1 implies (#[trigger] slots[i]).state
            == SlotState::Dropped by {
            if i > 0 {
                assert(slots[i] == rest[i - 1]);
            }
        }
        if k < rest.len() {
            assert(slots[k + 1] == rest[k]);
        }
        k + 1
    } else {
        assert(slots.skip(0) =~= slots);
        0
    }
}

/// Messages play in the order in which they arrived: while an earlier message
/// waits and has not been dropped, it is never the turn of a later one,
/// whichever of the two was ready first.
pub proof fn earlier_message_plays_first(slots: Seq<Slot>, earlier: int, later: int)
    requires
        distinct(slots),
        0 <= earlier < later < slots.len(),
        slots[earlier].state != SlotState::Dropped,
    ensures
        turn(slots) != Some(slots[later].message),
{
    let k = settle_cuts_dropped_front(slots);
    assert(k <= earlier);
    if turn(slots) is Some {
        assert(settle(slots)[0] == slots[k]);
    }
}

/// Whoever's turn it is waits in the queue and is ready.
pub proof fn turn_is_ready(slots: Seq<Slot>)
    requires
        turn(slots) is Some,
    ensures
        exists|i: int|
            0 <= i < slots.len() && (#[trigger] slots[i]).message == turn(slots).unwrap()
                && slots[i].state == SlotState::Ready,
{
    let k = settle_cuts_dropped_front(slots);
    assert(settle(slots)[0] == slots[k]);
}

/// The end of a synthesis leaves every ready message ready.
pub proof fn marking_keeps_ready(slots: Seq<Slot>, message: u64, state: SlotState, key: u64)
    requires
        ready_in(slots, key),
    ensures
        ready_in(marked(slots, message, state), key),
{
    let i = choose|i: int|
        0 <= i < slots.len() && (#[trigger] slots[i]).message == key && slots[i].state
            == SlotState::Ready;
    assert(marked(slots, message, state)[i] == slots[i]);
}

/// A synthesis that ends with audio makes its pending message ready.
pub proof fn marking_makes_ready(slots: Seq<Slot>, message: u64)
    requires
        awaited(slots, message),
    ensures
        ready_in(marked(slots, message, SlotState::Ready), message),
{
    let i = choose|i: int|
        0 <= i < slots.len() && (#[trigger] slots[i]).message == message && slots[i].state
            == SlotState::Pending;
    assert(marked(slots, message, SlotState::Ready)[i] == (Slot {
        message,
        state: SlotState::Ready,
    }));
}

/// An arrival leaves every ready message ready.
pub proof fn arrival_keeps_ready(slots: Seq<Slot>, slot: Slot, key: u64)
    requires
        ready_in(slots, key),
    ensures
        ready_in(slots.push(slot), key),
{
    let i = choose|i: int|
        0 <= i < slots.len() && (#[trigger] slots[i]).message == key && slots[i].state
            == SlotState::Ready;
    assert(slots.push(slot)[i] == slots[i]);
}

/// Handing out a turn leaves every other ready message ready: a ready
/// message stays when the dropped front is cut off, and stays behind the one
/// whose turn it is unless it is that one.
pub proof fn turn_keeps_others_ready(slots: Seq<Slot>, key: u64)
    requires
        ready_in(slots, key),
    ensures
        ready_in(settle(slots), key),
        turn(slots) != Some(key) ==> ready_in(settle(slots).skip(1), key),
{
    let k = settle_cuts_dropped_front(slots);
    let i = choose|i: int|
        0 <= i < slots.len() && (#[trigger] slots[i]).message == key && slots[i].state
            == SlotState::Ready;
    assert(i >= k);
    assert(settle(slots)[i - k] == slots[i]);
    assert(settle(slots)[0] == slots[k]);
    if i == k {
        assert(turn(slots) == Some(key));
    } else {
        assert(settle(slots).skip(1)[i - k - 1] == slots[i]);
    }
}

} // verus!
