use crate::reply::Reply;
use vstd::prelude::*;

verus! {

/// Where a codec adapter stands in its life.
#[derive(Clone, Copy, Debug, PartialEq, Eq, Structural)]
pub enum Phase {
    /// Built; no input has been pushed yet.
    Fresh,
    /// Input is being pushed and output pulled.
    Draining,
    /// End of stream was signalled; what is still buffered can be pulled, and
    /// no input is accepted any more.
    Flushed,
}

/// The calls a codec adapter takes.
#[derive(Clone, Copy, Debug, PartialEq, Eq, Structural)]
pub enum AdapterCall {
    /// Feed one unit of input.
    Push,
    /// Pull one unit of output, if one is ready.
    Take,
    /// Signal the end of the input.
    Flush,
}

/// The protocol state of a decoder or an encoder. Such a codec buffers
/// input and emits output later, so it must be drained to empty after every
/// push and after the flush; a push or flush before that loses output or is
/// refused by the codec.
#[derive(Clone, Copy, Debug, PartialEq, Eq, Structural)]
pub struct Adapter {
    pub phase: Phase,
    /// Whether the output has been pulled until nothing was left since the
    /// last push or flush.
    pub drained: bool,
}

impl Adapter {
    /// An adapter that was just built.
    pub open spec fn fresh() -> Adapter {
        Adapter { phase: Phase::Fresh, drained: true }
    }

    /// Whether `call` may be made in this state.
    pub open spec fn permits(self, call: AdapterCall) -> bool {
        match call {
            AdapterCall::Push | AdapterCall::Flush => self.phase != Phase::Flushed && self.drained,
            AdapterCall::Take => true,
        }
    }

    /// Whether `reply` is one that `call` can give.
    pub open spec fn answers(call: AdapterCall, reply: Reply) -> bool {
        match call {
            AdapterCall::Push | AdapterCall::Flush => reply != Reply::Empty,
            AdapterCall::Take => true,
        }
    }

    /// The state after `call` came back with `reply`. A failed call changes
    /// nothing.
    pub open spec fn after(self, call: AdapterCall, reply: Reply) -> Adapter {
        if reply == Reply::Failed {
            self
        } else {
            match call {
                AdapterCall::Push => Adapter { phase: Phase::Draining, drained: false },
                AdapterCall::Flush => Adapter { phase: Phase::Flushed, drained: false },
                AdapterCall::Take => Adapter { phase: self.phase, drained: reply == Reply::Empty },
            }
        }
    }

    /// Whether the adapter has given everything it will ever give: it was
    /// flushed and then drained.
    pub open spec fn exhausted(self) -> bool {
        self.phase == Phase::Flushed && self.drained
    }

    /// An adapter that was just built.
    pub fn new() -> (adapter: Adapter)
        ensures
            adapter == Adapter::fresh(),
    {
        Adapter { phase: Phase::Fresh, drained: true }
    }

    /// Whether `call` may be made now.
    pub fn allows(&self, call: AdapterCall) -> (ok: bool)
        ensures
            ok == self.permits(call),
    {
        match call {
            AdapterCall::Take => true,
            _ => self.drained && self.phase != Phase::Flushed,
        }
    }

    /// Records that `call` was made and came back with `reply`. A call that
    /// was not permitted, or a reply that the call cannot give, is refused and
    /// changes nothing.
    pub fn record(&mut self, call: AdapterCall, reply: Reply) -> (accepted: bool)
        ensures
            accepted == (old(self).permits(call) && Adapter::answers(call, reply)),
            accepted ==> *final(self) == old(self).after(call, reply),
            !accepted ==> *final(self) == *old(self),
    {
        if !self.allows(call) {
            return false;
        }
        match (call, reply) {
            (AdapterCall::Push, Reply::Empty) | (AdapterCall::Flush, Reply::Empty) => false,
            (_, Reply::Failed) => true,
            (AdapterCall::Push, Reply::Done) => {
                self.phase = Phase::Draining;
                self.drained = false;
                true
            },
            (AdapterCall::Flush, Reply::Done) => {
                self.phase = Phase::Flushed;
                self.drained = false;
                true
            },
            (AdapterCall::Take, Reply::Done) => {
                self.drained = false;
                true
            },
            (AdapterCall::Take, Reply::Empty) => {
                self.drained = true;
                true
            },
        }
    }

    /// Whether the adapter was flushed and then drained.
    pub fn is_exhausted(&self) -> (done: bool)
        ensures
            done == self.exhausted(),
    {
        self.drained && self.phase == Phase::Flushed
    }
}

} // verus!
