use crate::error::{
    ends_with, lemma_operation_text_holds_path, operation_text, operation_words, ErrorKind,
};
use crate::reply::{CallShape, Reply};
use vstd::prelude::*;

verus! {

/// What opening a container reader awaits next.
#[derive(Clone, Copy, Debug, PartialEq, Eq, Structural)]
pub enum InputStep {
    /// Open the input file for reading.
    OpenFile,
    /// Build the reader on the opened file.
    BuildDemuxer,
    /// Read enough of the container to know its streams.
    FindStreamInfo,
    /// The reader is open and its streams are known.
    Opened,
    /// Opening failed.
    Failed(ErrorKind),
}

/// The opening of a container reader.
#[derive(Clone, Copy, Debug, PartialEq, Eq, Structural)]
pub struct InputSession {
    /// The step that awaits its reply.
    pub step: InputStep,
}

impl InputStep {
    /// Which replies this step takes.
    pub open spec fn shape(self) -> CallShape {
        match self {
            InputStep::Opened | InputStep::Failed(_) => CallShape::Closed,
            _ => CallShape::Fallible,
        }
    }

    /// Which replies this step takes.
    pub fn call_shape(self) -> (shape: CallShape)
        ensures
            shape == self.shape(),
    {
        match self {
            InputStep::Opened | InputStep::Failed(_) => CallShape::Closed,
            _ => CallShape::Fallible,
        }
    }
}

impl InputSession {
    /// The session before anything was done.
    pub open spec fn start() -> InputSession {
        InputSession { step: InputStep::OpenFile }
    }

    /// The session after its pending step came back with `reply`. A reply
    /// that the step does not take leaves the session as it is.
    pub open spec fn next(self, reply: Reply) -> InputSession {
        if !self.step.shape().admits(reply) {
            self
        } else {
            let step = match self.step {
                InputStep::OpenFile => if reply == Reply::Done {
                    InputStep::BuildDemuxer
                } else {
                    InputStep::Failed(ErrorKind::IoFailure)
                },
                InputStep::BuildDemuxer => if reply == Reply::Done {
                    InputStep::FindStreamInfo
                } else {
                    InputStep::Failed(ErrorKind::DemuxFailure)
                },
                InputStep::FindStreamInfo => if reply == Reply::Done {
                    InputStep::Opened
                } else {
                    InputStep::Failed(ErrorKind::DemuxFailure)
                },
                InputStep::Opened | InputStep::Failed(_) => self.step,
            };
            InputSession { step }
        }
    }

    /// Whether the session is over, opened or failed.
    pub open spec fn closed(self) -> bool {
        self.step.shape() == CallShape::Closed
    }

    /// Whether the opening ends in failure when its pending step comes back
    /// with `reply`.
    pub open spec fn fails_on(self, reply: Reply) -> bool {
        !(self.step is Failed) && self.next(reply).step is Failed
    }

    /// Begins the opening of a reader.
    pub fn begin() -> (session: InputSession)
        ensures
            session == InputSession::start(),
    {
        InputSession { step: InputStep::OpenFile }
    }

    /// Whether the session is over, opened or failed.
    pub fn is_closed(&self) -> (over: bool)
        ensures
            over == self.closed(),
    {
        match self.step {
            InputStep::Opened | InputStep::Failed(_) => true,
            _ => false,
        }
    }
}

/// Advances the opening of a container reader by the reply to its pending
/// step: the file is opened, the reader is built on it, and the streams are
/// probed. The first failure ends the session.
pub fn open_input(session: InputSession, reply: Reply) -> (next: InputSession)
    ensures
        next == session.next(reply),
{
    if !session.step.call_shape().accepts(reply) {
        return session;
    }
    let done = match reply {
        Reply::Done => true,
        _ => false,
    };
    let step = match session.step {
        InputStep::OpenFile => if done {
            InputStep::BuildDemuxer
        } else {
            InputStep::Failed(ErrorKind::IoFailure)
        },
        InputStep::BuildDemuxer => if done {
            InputStep::FindStreamInfo
        } else {
            InputStep::Failed(ErrorKind::DemuxFailure)
        },
        InputStep::FindStreamInfo => if done {
            InputStep::Opened
        } else {
            InputStep::Failed(ErrorKind::DemuxFailure)
        },
        InputStep::Opened => InputStep::Opened,
        InputStep::Failed(kind) => InputStep::Failed(kind),
    };
    InputSession { step }
}

/// The words that say what went wrong where the call of `step` fails, for
/// the input at `path`: the operation, then the path. None for a step that
/// makes no call.
pub open spec fn input_context_text(step: InputStep, path: Seq<char>) -> Option<Seq<char>> {
    match step {
        InputStep::OpenFile => Some(operation_text("unable to open input file "@, path)),
        InputStep::BuildDemuxer => Some(
            operation_text("unable to build demuxer for input file "@, path),
        ),
        InputStep::FindStreamInfo => Some(
            operation_text("unable to find stream info in input file "@, path),
        ),
        InputStep::Opened | InputStep::Failed(_) => None,
    }
}

/// The words that say what went wrong where the call of `step` fails, for
/// the input at `path`: the operation, then the path. None for a step that
/// makes no call.
pub fn input_context(step: InputStep, path: &str) -> (text: Option<String>)
    ensures
        text.is_some() == input_context_text(step, path@).is_some(),
        text matches Some(words) ==> Some(words@) == input_context_text(step, path@),
{
    match step {
        InputStep::OpenFile => Some(operation_words("unable to open input file ", path)),
        InputStep::BuildDemuxer => Some(
            operation_words("unable to build demuxer for input file ", path),
        ),
        InputStep::FindStreamInfo => Some(
            operation_words("unable to find stream info in input file ", path),
        ),
        InputStep::Opened | InputStep::Failed(_) => None,
    }
}

/// The words of the failure with which the opening ends when the pending
/// step of `session` comes back with `reply`; none where that reply does not
/// end it in failure.
pub open spec fn input_failure_text(
    session: InputSession,
    reply: Reply,
    path: Seq<char>,
) -> Option<Seq<char>> {
    if session.fails_on(reply) {
        input_context_text(session.step, path)
    } else {
        None
    }
}

/// The words of the failure with which the opening ends when the pending
/// step of `session` comes back with `reply`, for the input at `path`. There
/// are words exactly where that reply ends the opening in failure.
pub fn input_failure_words(session: InputSession, reply: Reply, path: &str) -> (text: Option<
    String,
>)
    ensures
        text.is_some() == session.fails_on(reply),
        text.is_some() == input_failure_text(session, reply, path@).is_some(),
        text matches Some(words) ==> Some(words@) == input_failure_text(session, reply, path@),
{
    let after = open_input(session, reply);
    match (session.step, after.step) {
        (InputStep::Failed(_), _) => None,
        (_, InputStep::Failed(_)) => input_context(session.step, path),
        _ => None,
    }
}

/// Every failure of the opening has its words, and they hold the path: the
/// step that failed names the operation, and the path follows it.
pub proof fn lemma_input_failure_holds_path(session: InputSession, reply: Reply, path: Seq<char>)
    requires
        session.fails_on(reply),
    ensures
        input_failure_text(session, reply, path) matches Some(words) && ends_with(words, path),
{
    lemma_operation_text_holds_path("unable to open input file "@, path);
    lemma_operation_text_holds_path("unable to build demuxer for input file "@, path);
    lemma_operation_text_holds_path("unable to find stream info in input file "@, path);
}

/// Whether `index` is the position of the first video stream in `kinds`,
/// which tells of each stream of a container whether it is a video stream.
pub open spec fn first_video_stream(kinds: Seq<bool>, index: int) -> bool {
    &&& 0 <= index < kinds.len()
    &&& kinds[index]
    &&& forall|j: int| 0 <= j < index ==> !kinds[j]
}

/// Whether `kinds` holds no video stream.
pub open spec fn no_video_stream(kinds: Seq<bool>) -> bool {
    forall|j: int| 0 <= j < kinds.len() ==> !kinds[j]
}

/// The video stream that is decoded: the first one of the container.
pub open spec fn selected_stream(kinds: Seq<bool>) -> Option<usize> {
    if no_video_stream(kinds) {
        None
    } else {
        Some((choose|index: int| first_video_stream(kinds, index)) as usize)
    }
}

/// A container with a video stream has exactly one first video stream.
pub proof fn lemma_first_video_stream(kinds: Seq<bool>)
    requires
        !no_video_stream(kinds),
    ensures
        exists|index: int| first_video_stream(kinds, index),
        forall|a: int, b: int|
            first_video_stream(kinds, a) && first_video_stream(kinds, b) ==> a == b,
    decreases kinds.len(),
{
    let j = choose|j: int| 0 <= j < kinds.len() && kinds[j];
    if first_video_stream(kinds, j) {
    } else {
        let shorter = kinds.take(j);
        assert(forall|i: int| 0 <= i < j ==> shorter[i] == kinds[i]);
        let i = choose|i: int| 0 <= i < j && kinds[i];
        assert(shorter[i]);
        lemma_first_video_stream(shorter);
        let index = choose|index: int| first_video_stream(shorter, index);
        assert(first_video_stream(kinds, index));
    }
    assert forall|a: int, b: int|
        first_video_stream(kinds, a) && first_video_stream(kinds, b) implies a == b by {
        if a < b {
            assert(!kinds[a]);
        }
        if b < a {
            assert(!kinds[b]);
        }
    }
}

/// The selected stream is the first video stream of the container, and none
/// is selected only where the container holds no video stream.
pub proof fn lemma_selected_stream(kinds: Seq<bool>)
    requires
        kinds.len() <= usize::MAX,
    ensures
        selected_stream(kinds) matches Some(index) ==> first_video_stream(kinds, index as int),
        selected_stream(kinds).is_none() <==> no_video_stream(kinds),
{
    if !no_video_stream(kinds) {
        lemma_first_video_stream(kinds);
    }
}

/// Selects the stream to decode: the first stream of the container that is a
/// video stream, or none where the container has no video stream.
pub fn select_video_stream(kinds: &Vec<bool>) -> (selected: Option<usize>)
    ensures
        selected == selected_stream(kinds@),
        selected matches Some(index) ==> first_video_stream(kinds@, index as int),
        selected.is_none() <==> no_video_stream(kinds@),
{
    let mut index: usize = 0;
    while index < kinds.len()
        invariant
            index <= kinds.len(),
            forall|j: int| 0 <= j < index ==> !kinds@[j],
        decreases kinds.len() - index,
    {
        if kinds[index] {
            proof {
                assert(first_video_stream(kinds@, index as int));
                lemma_first_video_stream(kinds@);
            }
            return Some(index);
        }
        index += 1;
    }
    None
}

} // verus!
