//! Single-slot "latest value wins" mailbox: the only state shared between
//! the network context (sole producer) and the actuation context (sole
//! consumer). A new value replaces any unconsumed one; reading returns the
//! pending value and resets the slot to `Noop`. No history, no queueing:
//! if telemetry arrives faster than the render period, stale values are
//! dropped and the consumer only ever sees the freshest state.
use vstd::prelude::*;

verus! {

/// Control message handed from the network context to the actuation context.
///
/// `Analysis.novelty` is the IEEE 754 binary64 bit pattern of the forwarded
/// novelty ratio; keeping the bits exact lets the runner logic stay integer
/// code.
#[derive(Copy, Clone, Debug, PartialEq, Eq, Structural)]
pub enum ControlMessage {
    Standby,
    RandomRunner,
    Analysis { novelty: u64, is_beat: bool },
    Noop,
    Exit,
}

/// The one-slot overwrite mailbox.
pub struct Mailbox {
    slot: ControlMessage,
}

/// The mailbox a write leaves behind: only the written value is pending.
pub closed spec fn spec_update(m: Mailbox, msg: ControlMessage) -> Mailbox {
    Mailbox { slot: msg }
}

/// The value a read returns: whatever is pending.
pub closed spec fn spec_take_value(m: Mailbox) -> ControlMessage {
    m.slot
}

/// The mailbox a read leaves behind: nothing pending.
pub closed spec fn spec_take_rest(m: Mailbox) -> Mailbox {
    Mailbox { slot: ControlMessage::Noop }
}

impl Mailbox {
    /// The message a read would return now: the pending value, or `Noop`
    /// when nothing is pending.
    pub closed spec fn pending(self) -> ControlMessage {
        self.slot
    }

    /// A fresh mailbox has nothing pending.
    pub fn new() -> (r: Mailbox)
        ensures
            r.pending() == ControlMessage::Noop,
    {
        Mailbox { slot: ControlMessage::Noop }
    }

    /// Producer side: store `msg`, replacing any unconsumed previous value.
    /// Always succeeds; last write wins.
    pub fn update(&mut self, msg: ControlMessage)
        ensures
            *final(self) == spec_update(*old(self), msg),
            final(self).pending() == msg,
    {
        self.slot = msg;
    }

    /// Consumer side: return the pending value and reset the slot, so an
    /// immediate second read returns `Noop`.
    pub fn take_latest(&mut self) -> (r: ControlMessage)
        ensures
            r == spec_take_value(*old(self)),
            r == old(self).pending(),
            *final(self) == spec_take_rest(*old(self)),
            final(self).pending() == ControlMessage::Noop,
    {
        let r = self.slot;
        self.slot = ControlMessage::Noop;
        r
    }
}

/// Overwrite law: whatever the mailbox held before, after writing `a` and
/// then `b`, a read returns only `b`, and an immediate second read returns
/// `Noop`.
pub proof fn lemma_mailbox_latest_wins(m: Mailbox, a: ControlMessage, b: ControlMessage)
    ensures
        ({
            let after_writes = spec_update(spec_update(m, a), b);
            &&& spec_take_value(after_writes) == b
            &&& spec_take_value(spec_take_rest(after_writes)) == ControlMessage::Noop
        }),
{
}

} // verus!
