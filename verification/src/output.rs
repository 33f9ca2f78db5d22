use crate::error::{
    ends_with, lemma_operation_text_holds_path, operation_text, operation_words, ErrorKind,
};
use crate::reply::{CallShape, Reply};
use vstd::prelude::*;

verus! {

/// What opening a container writer awaits next. Each step but the last two
/// names one outside call; its reply advances the session.
#[derive(Clone, Copy, Debug, PartialEq, Eq, Structural)]
pub enum OutputStep {
    /// Infer the container format from the extension of the output path.
    GuessFormat,
    /// Create the output file.
    CreateFile,
    /// Declare the elementary stream at position `index` of the list; the
    /// writer assigns it the stream index `index`.
    AddStream { index: usize },
    /// Build the writer from the file, the format and the declared streams.
    BuildMuxer,
    /// The writer is open.
    Opened,
    /// Opening failed.
    Failed(ErrorKind),
}

/// The opening of a container writer for a list of `streams` elementary
/// streams.
#[derive(Clone, Copy, Debug, PartialEq, Eq, Structural)]
pub struct OutputSession {
    /// The step that awaits its reply.
    pub step: OutputStep,
    /// How many elementary streams are to be declared.
    pub streams: usize,
}

impl OutputStep {
    /// Which replies this step takes.
    pub open spec fn shape(self) -> CallShape {
        match self {
            OutputStep::GuessFormat => CallShape::Optional,
            OutputStep::CreateFile | OutputStep::AddStream { .. } | OutputStep::BuildMuxer =>
                CallShape::Fallible,
            OutputStep::Opened | OutputStep::Failed(_) => CallShape::Closed,
        }
    }

    /// Which replies this step takes.
    pub fn call_shape(self) -> (shape: CallShape)
        ensures
            shape == self.shape(),
    {
        match self {
            OutputStep::GuessFormat => CallShape::Optional,
            OutputStep::CreateFile | OutputStep::AddStream { .. } | OutputStep::BuildMuxer =>
                CallShape::Fallible,
            OutputStep::Opened | OutputStep::Failed(_) => CallShape::Closed,
        }
    }
}

/// The step that follows the declaration of the first `declared` of
/// `streams` streams.
pub open spec fn declare_from(declared: int, streams: int) -> OutputStep {
    if declared < streams {
        OutputStep::AddStream { index: declared as usize }
    } else {
        OutputStep::BuildMuxer
    }
}

impl OutputSession {
    /// The session before anything was done.
    pub open spec fn start(streams: usize) -> OutputSession {
        OutputSession { step: OutputStep::GuessFormat, streams }
    }

    /// The session after its pending step came back with `reply`. A reply
    /// that the step does not take leaves the session as it is.
    pub open spec fn next(self, reply: Reply) -> OutputSession {
        if !self.step.shape().admits(reply) {
            self
        } else {
            let step = match self.step {
                OutputStep::GuessFormat => if reply == Reply::Done {
                    OutputStep::CreateFile
                } else {
                    OutputStep::Failed(ErrorKind::FormatGuessFailure)
                },
                OutputStep::CreateFile => if reply == Reply::Done {
                    declare_from(0, self.streams as int)
                } else {
                    OutputStep::Failed(ErrorKind::IoFailure)
                },
                OutputStep::AddStream { index } => if reply == Reply::Done {
                    declare_from(index + 1, self.streams as int)
                } else {
                    OutputStep::Failed(ErrorKind::MuxFailure)
                },
                OutputStep::BuildMuxer => if reply == Reply::Done {
                    OutputStep::Opened
                } else {
                    OutputStep::Failed(ErrorKind::MuxFailure)
                },
                OutputStep::Opened | OutputStep::Failed(_) => self.step,
            };
            OutputSession { step, streams: self.streams }
        }
    }

    /// Whether the session is over, opened or failed.
    pub open spec fn closed(self) -> bool {
        self.step.shape() == CallShape::Closed
    }

    /// Whether the opening ends in failure when its pending step comes back
    /// with `reply`.
    pub open spec fn fails_on(self, reply: Reply) -> bool {
        !(self.step is Failed) && self.next(reply).step is Failed
    }

    /// Begins the opening of a writer for `streams` elementary streams.
    pub fn begin(streams: usize) -> (session: OutputSession)
        ensures
            session == OutputSession::start(streams),
    {
        OutputSession { step: OutputStep::GuessFormat, streams }
    }

    /// Whether the session is over, opened or failed.
    pub fn is_closed(&self) -> (over: bool)
        ensures
            over == self.closed(),
    {
        match self.step {
            OutputStep::Opened | OutputStep::Failed(_) => true,
            _ => false,
        }
    }
}

/// Advances the opening of a container writer by the reply to its pending
/// step: the format is inferred from the path, then the file is created, then
/// the elementary streams are declared in the order of the list, then the
/// writer is built. The first failure ends the session.
pub fn open_output(session: OutputSession, reply: Reply) -> (next: OutputSession)
    ensures
        next == session.next(reply),
{
    if !session.step.call_shape().accepts(reply) {
        return session;
    }
    let done = match reply {
        Reply::Done => true,
        _ => false,
    };
    let streams = session.streams;
    let step = match session.step {
        OutputStep::GuessFormat => if done {
            OutputStep::CreateFile
        } else {
            OutputStep::Failed(ErrorKind::FormatGuessFailure)
        },
        OutputStep::CreateFile => if !done {
            OutputStep::Failed(ErrorKind::IoFailure)
        } else if 0 < streams {
            OutputStep::AddStream { index: 0 }
        } else {
            OutputStep::BuildMuxer
        },
        OutputStep::AddStream { index } => if !done {
            OutputStep::Failed(ErrorKind::MuxFailure)
        } else if index < streams && index + 1 < streams {
            OutputStep::AddStream { index: index + 1 }
        } else {
            OutputStep::BuildMuxer
        },
        OutputStep::BuildMuxer => if done {
            OutputStep::Opened
        } else {
            OutputStep::Failed(ErrorKind::MuxFailure)
        },
        OutputStep::Opened => OutputStep::Opened,
        OutputStep::Failed(kind) => OutputStep::Failed(kind),
    };
    OutputSession { step, streams }
}

/// The words that say what went wrong where the call of `step` does not go
/// well, for the output at `path`: the operation, then the path. None for a
/// step that makes no call.
pub open spec fn output_context_text(step: OutputStep, path: Seq<char>) -> Option<Seq<char>> {
    match step {
        OutputStep::GuessFormat => Some(
            operation_text("unable to guess output format for file: "@, path),
        ),
        OutputStep::CreateFile => Some(operation_text("unable to create output file "@, path)),
        OutputStep::AddStream { .. } => Some(
            operation_text("unable to add stream to output file "@, path),
        ),
        OutputStep::BuildMuxer => Some(
            operation_text("unable to build muxer for output file "@, path),
        ),
        OutputStep::Opened | OutputStep::Failed(_) => None,
    }
}

/// The words that say what went wrong where the call of `step` does not go
/// well, for the output at `path`: the operation, then the path. None for a
/// step that makes no call.
pub fn output_context(step: OutputStep, path: &str) -> (text: Option<String>)
    ensures
        text.is_some() == output_context_text(step, path@).is_some(),
        text matches Some(words) ==> Some(words@) == output_context_text(step, path@),
{
    match step {
        OutputStep::GuessFormat => Some(
            operation_words("unable to guess output format for file: ", path),
        ),
        OutputStep::CreateFile => Some(operation_words("unable to create output file ", path)),
        OutputStep::AddStream { .. } => Some(
            operation_words("unable to add stream to output file ", path),
        ),
        OutputStep::BuildMuxer => Some(
            operation_words("unable to build muxer for output file ", path),
        ),
        OutputStep::Opened | OutputStep::Failed(_) => None,
    }
}

/// The words of the failure with which the opening ends when the pending
/// step of `session` comes back with `reply`; none where that reply does not
/// end it in failure.
pub open spec fn output_failure_text(
    session: OutputSession,
    reply: Reply,
    path: Seq<char>,
) -> Option<Seq<char>> {
    if session.fails_on(reply) {
        output_context_text(session.step, path)
    } else {
        None
    }
}

/// The words of the failure with which the opening ends when the pending
/// step of `session` comes back with `reply`, for the output at `path`.
/// There are words exactly where that reply ends the opening in failure.
pub fn output_failure_words(session: OutputSession, reply: Reply, path: &str) -> (text: Option<
    String,
>)
    ensures
        text.is_some() == session.fails_on(reply),
        text.is_some() == output_failure_text(session, reply, path@).is_some(),
        text matches Some(words) ==> Some(words@) == output_failure_text(session, reply, path@),
{
    let after = open_output(session, reply);
    match (session.step, after.step) {
        (OutputStep::Failed(_), _) => None,
        (_, OutputStep::Failed(_)) => output_context(session.step, path),
        _ => None,
    }
}

/// Every failure of the opening has its words, and they hold the path: the
/// step that failed names the operation, and the path follows it.
pub proof fn lemma_output_failure_holds_path(session: OutputSession, reply: Reply, path: Seq<char>)
    requires
        session.fails_on(reply),
    ensures
        output_failure_text(session, reply, path) matches Some(words) && ends_with(words, path),
{
    lemma_operation_text_holds_path("unable to guess output format for file: "@, path);
    lemma_operation_text_holds_path("unable to create output file "@, path);
    lemma_operation_text_holds_path("unable to add stream to output file "@, path);
    lemma_operation_text_holds_path("unable to build muxer for output file "@, path);
}

/// The session for `streams` elementary streams after the first `count` of
/// `replies` came in, each answering the step that was pending then.
pub open spec fn output_at(streams: usize, replies: Seq<Reply>, count: nat) -> OutputSession
    decreases count,
{
    if count == 0 {
        OutputSession::start(streams)
    } else {
        output_at(streams, replies, (count - 1) as nat).next(replies[count - 1])
    }
}

/// Whether every one of `replies` is a reply that the step it answers takes.
pub open spec fn output_faithful(streams: usize, replies: Seq<Reply>) -> bool {
    forall|k: nat|
        k < replies.len() ==> (#[trigger] output_at(streams, replies, k)).step.shape().admits(
            replies[k as int],
        )
}

/// Whether the first `count` of `replies` are all `Done`.
pub open spec fn all_done(replies: Seq<Reply>, count: nat) -> bool {
    forall|j: int| 0 <= j < count ==> #[trigger] replies[j] == Reply::Done
}

/// The step that is pending after `count` calls that all went well.
pub open spec fn output_step_after(streams: usize, count: nat) -> OutputStep {
    if count == 0 {
        OutputStep::GuessFormat
    } else if count == 1 {
        OutputStep::CreateFile
    } else if count < 2 + streams {
        OutputStep::AddStream { index: (count - 2) as usize }
    } else if count == 2 + streams {
        OutputStep::BuildMuxer
    } else {
        OutputStep::Opened
    }
}

/// The error with which a session ends when `step` does not go well.
pub open spec fn output_failure(step: OutputStep) -> ErrorKind {
    match step {
        OutputStep::GuessFormat => ErrorKind::FormatGuessFailure,
        OutputStep::CreateFile => ErrorKind::IoFailure,
        OutputStep::Failed(kind) => kind,
        _ => ErrorKind::MuxFailure,
    }
}

/// While every call goes well, the calls come in one fixed order: the format
/// is inferred, the file is created, the streams are declared one by one in
/// the order of the list, so that the entry at position `n` is the `n`-th to
/// be declared, and the writer is built last. After that the writer is open
/// and no further call is made.
pub proof fn lemma_output_order(streams: usize, replies: Seq<Reply>, count: nat)
    requires
        output_faithful(streams, replies),
        count <= replies.len(),
        all_done(replies, count),
    ensures
        count <= streams + 3,
        output_at(streams, replies, count).streams == streams,
        output_at(streams, replies, count).step == output_step_after(streams, count),
        output_at(streams, replies, count).closed() <==> count == streams + 3,
    decreases count,
{
    if count > 0 {
        let before = (count - 1) as nat;
        lemma_output_order(streams, replies, before);
        assert(output_at(streams, replies, before).step.shape().admits(replies[before as int]));
        assert(replies[before as int] == Reply::Done);
    }
}

/// The first call that does not go well ends the session, with the error
/// that belongs to that call; no call is made after it.
pub proof fn lemma_output_first_failure(streams: usize, replies: Seq<Reply>, count: nat)
    requires
        output_faithful(streams, replies),
        count < replies.len(),
        all_done(replies, count),
        replies[count as int] != Reply::Done,
    ensures
        replies.len() == count + 1,
        output_at(streams, replies, count + 1).step == OutputStep::Failed(
            output_failure(output_step_after(streams, count)),
        ),
{
    lemma_output_order(streams, replies, count);
    assert(output_at(streams, replies, count).step.shape().admits(replies[count as int]));
    let after = output_at(streams, replies, count + 1);
    assert(after == output_at(streams, replies, count).next(replies[count as int]));
    assert(after.closed());
    if replies.len() > count + 1 {
        assert(after.step.shape().admits(replies[count as int + 1]));
    }
}

/// A path from which no container format can be inferred fails the opening
/// with `FormatGuessFailure`, and the creation of the output file is never
/// reached.
pub proof fn lemma_unknown_format_creates_no_file(streams: usize, replies: Seq<Reply>)
    requires
        output_faithful(streams, replies),
        replies.len() >= 1,
        replies[0] == Reply::Empty,
    ensures
        replies.len() == 1,
        output_at(streams, replies, 1).step == OutputStep::Failed(ErrorKind::FormatGuessFailure),
        forall|k: nat|
            k <= replies.len() ==> (#[trigger] output_at(streams, replies, k)).step
                != OutputStep::CreateFile,
{
    lemma_output_first_failure(streams, replies, 0);
    assert(output_at(streams, replies, 0).step == OutputStep::GuessFormat);
    assert forall|k: nat| k <= replies.len() implies (#[trigger] output_at(
        streams,
        replies,
        k,
    )).step != OutputStep::CreateFile by {
        assert(k == 0 || k == 1);
    }
}

} // verus!
