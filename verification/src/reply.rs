use vstd::prelude::*;

verus! {

/// What came back from an outside call, reduced to what the pipelines decide
/// on.
#[derive(Clone, Copy, Debug, PartialEq, Eq, Structural)]
pub enum Reply {
    /// The call succeeded; where it hands a unit over (a frame, a packet, a
    /// container format), it handed one over.
    Done,
    /// The call succeeded and had nothing to hand over.
    Empty,
    /// The call returned an error.
    Failed,
}

/// The shapes an outside call can have, by the replies it is able to give.
#[derive(Clone, Copy, Debug, PartialEq, Eq, Structural)]
pub enum CallShape {
    /// Succeeds or fails, and hands nothing over: `Done` or `Failed`.
    Fallible,
    /// Cannot fail, and may have nothing to hand over: `Done` or `Empty`.
    Optional,
    /// May hand a unit over, have none, or fail: any reply.
    FallibleOptional,
    /// Takes no reply at all: the pipeline is over.
    Closed,
}

impl CallShape {
    /// Whether a call of this shape can come back with `reply`.
    pub open spec fn admits(self, reply: Reply) -> bool {
        match self {
            CallShape::Fallible => reply != Reply::Empty,
            CallShape::Optional => reply != Reply::Failed,
            CallShape::FallibleOptional => true,
            CallShape::Closed => false,
        }
    }

    /// Whether a call of this shape can come back with `reply`.
    pub fn accepts(self, reply: Reply) -> (ok: bool)
        ensures
            ok == self.admits(reply),
    {
        match self {
            CallShape::Fallible => reply != Reply::Empty,
            CallShape::Optional => reply != Reply::Failed,
            CallShape::FallibleOptional => true,
            CallShape::Closed => false,
        }
    }
}

} // verus!
