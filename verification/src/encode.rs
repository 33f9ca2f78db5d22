use crate::error::{
    ends_with, lemma_operation_text_holds_path, operation_text, operation_words, ErrorKind,
};
use crate::output::{
    lemma_output_failure_holds_path, open_output, output_context, output_context_text,
    OutputSession, OutputStep,
};
use crate::reply::{CallShape, Reply};
use crate::time::{
    encoder_time_base, encoder_time_base_spec, frame_timestamp, frame_timestamp_spec, TimeBase,
    Timestamp,
};
use vstd::prelude::*;

verus! {

/// The name of the one codec that video is encoded with.
pub const ENCODER_CODEC: &'static str = "libx265";

/// How many elementary streams the output of an encoding has: the video
/// stream alone.
pub const ENCODED_STREAMS: usize = 1;

/// The stream index that every encoded packet is stamped with.
pub const VIDEO_STREAM_INDEX: usize = 0;

/// What the encoder is built with.
#[derive(Clone, Copy, Debug, PartialEq, Eq)]
pub struct EncoderConfig {
    /// The name of the codec.
    pub codec: &'static str,
    /// The width of a frame, in pixels.
    pub width: usize,
    /// The height of a frame, in pixels.
    pub height: usize,
    /// The unit of the timestamps of the frames.
    pub time_base: TimeBase,
}

/// The configuration of the encoder for frames of `width` by `height`
/// pixels: the codec and the time base are fixed, the dimensions are the
/// caller's.
pub fn encoder_config(width: u32, height: u32) -> (config: EncoderConfig)
    ensures
        config.codec@ == ENCODER_CODEC@,
        config.width == width,
        config.height == height,
        config.time_base == encoder_time_base_spec(),
{
    EncoderConfig {
        codec: ENCODER_CODEC,
        width: width as usize,
        height: height as usize,
        time_base: encoder_time_base(),
    }
}

/// What an encoding awaits next. Each step but the last two names one
/// outside call; its reply advances the session.
#[derive(Clone, Copy, Debug, PartialEq, Eq, Structural)]
pub enum EncodeStep {
    /// Build the encoder for the caller's pixel format and dimensions, with
    /// the codec `ENCODER_CODEC` and the encoder's time base.
    BuildEncoder,
    /// Open the container writer for one stream with the encoder's codec
    /// parameters; the inner step is the one to perform.
    Output(OutputStep),
    /// Ask the frame source for its next frame.
    NextFrame,
    /// Stamp the frame just obtained with `stamp` and push it to the encoder.
    PushFrame { stamp: Timestamp },
    /// Pull a packet from the encoder. `flushed` tells whether the encoder
    /// has been flushed already.
    TakePacket { flushed: bool },
    /// Stamp the packet just pulled with `stream_index` and hand it to the
    /// writer.
    WritePacket { stream_index: usize, flushed: bool },
    /// Tell the encoder that no frame follows.
    FlushEncoder,
    /// Have the writer finish the container.
    FlushMuxer,
    /// The output is complete.
    Succeeded,
    /// The encoding was abandoned at its first error.
    Failed(ErrorKind),
}

/// One encoding of a frame source into a container.
#[derive(Clone, Copy, Debug, PartialEq, Eq, Structural)]
pub struct EncodeSession {
    /// The step that awaits its reply.
    pub step: EncodeStep,
    /// How many frames have been obtained from the frame source and stamped.
    pub frames: u64,
}

impl EncodeStep {
    /// Which replies this step takes.
    pub open spec fn shape(self) -> CallShape {
        match self {
            EncodeStep::Output(inner) => inner.shape(),
            EncodeStep::NextFrame => CallShape::Optional,
            EncodeStep::TakePacket { .. } => CallShape::FallibleOptional,
            EncodeStep::Succeeded | EncodeStep::Failed(_) => CallShape::Closed,
            _ => CallShape::Fallible,
        }
    }

    /// Which replies this step takes.
    pub fn call_shape(self) -> (shape: CallShape)
        ensures
            shape == self.shape(),
    {
        match self {
            EncodeStep::Output(inner) => inner.call_shape(),
            EncodeStep::NextFrame => CallShape::Optional,
            EncodeStep::TakePacket { .. } => CallShape::FallibleOptional,
            EncodeStep::Succeeded | EncodeStep::Failed(_) => CallShape::Closed,
            _ => CallShape::Fallible,
        }
    }
}

/// The step of an encoding that stands for the step `inner` of opening its
/// output: once the writer is open the frames are asked for, and a failure
/// to open it is a failure of the encoding.
pub open spec fn after_output(inner: OutputStep) -> EncodeStep {
    match inner {
        OutputStep::Opened => EncodeStep::NextFrame,
        OutputStep::Failed(kind) => EncodeStep::Failed(kind),
        _ => EncodeStep::Output(inner),
    }
}

impl EncodeSession {
    /// The session before anything was done.
    pub open spec fn start() -> EncodeSession {
        EncodeSession { step: EncodeStep::BuildEncoder, frames: 0 }
    }

    /// The session after its pending step came back with `reply`. A reply
    /// that the step does not take leaves the session as it is.
    pub open spec fn next(self, reply: Reply) -> EncodeSession {
        if !self.step.shape().admits(reply) {
            self
        } else if reply == Reply::Failed {
            EncodeSession { step: EncodeStep::Failed(encode_failure(self.step)), frames: self.frames }
        } else {
            match self.step {
                EncodeStep::BuildEncoder => EncodeSession {
                    step: EncodeStep::Output(OutputStep::GuessFormat),
                    frames: self.frames,
                },
                EncodeStep::Output(inner) => EncodeSession {
                    step: after_output(
                        OutputSession { step: inner, streams: ENCODED_STREAMS }.next(reply).step,
                    ),
                    frames: self.frames,
                },
                EncodeStep::NextFrame => if reply == Reply::Empty {
                    EncodeSession { step: EncodeStep::FlushEncoder, frames: self.frames }
                } else if self.frames <= i64::MAX {
                    EncodeSession {
                        step: EncodeStep::PushFrame {
                            stamp: frame_timestamp_spec(self.frames as int),
                        },
                        frames: (self.frames + 1) as u64,
                    }
                } else {
                    EncodeSession {
                        step: EncodeStep::Failed(ErrorKind::CodecProcessingFailure),
                        frames: self.frames,
                    }
                },
                EncodeStep::PushFrame { .. } => EncodeSession {
                    step: EncodeStep::TakePacket { flushed: false },
                    frames: self.frames,
                },
                EncodeStep::TakePacket { flushed } => if reply == Reply::Done {
                    EncodeSession {
                        step: EncodeStep::WritePacket { stream_index: VIDEO_STREAM_INDEX, flushed },
                        frames: self.frames,
                    }
                } else if flushed {
                    EncodeSession { step: EncodeStep::FlushMuxer, frames: self.frames }
                } else {
                    EncodeSession { step: EncodeStep::NextFrame, frames: self.frames }
                },
                EncodeStep::WritePacket { flushed, .. } => EncodeSession {
                    step: EncodeStep::TakePacket { flushed },
                    frames: self.frames,
                },
                EncodeStep::FlushEncoder => EncodeSession {
                    step: EncodeStep::TakePacket { flushed: true },
                    frames: self.frames,
                },
                EncodeStep::FlushMuxer => EncodeSession {
                    step: EncodeStep::Succeeded,
                    frames: self.frames,
                },
                EncodeStep::Succeeded | EncodeStep::Failed(_) => self,
            }
        }
    }

    /// Whether the session is over, succeeded or failed.
    pub open spec fn closed(self) -> bool {
        self.step is Succeeded || self.step is Failed
    }

    /// Whether the encoding ends in failure when its pending step comes back
    /// with `reply`.
    pub open spec fn fails_on(self, reply: Reply) -> bool {
        !(self.step is Failed) && self.next(reply).step is Failed
    }

    /// Begins an encoding.
    pub fn begin() -> (session: EncodeSession)
        ensures
            session == EncodeSession::start(),
    {
        EncodeSession { step: EncodeStep::BuildEncoder, frames: 0 }
    }

    /// Whether the session is over, succeeded or failed.
    pub fn is_closed(&self) -> (over: bool)
        ensures
            over == self.closed(),
    {
        match self.step {
            EncodeStep::Succeeded | EncodeStep::Failed(_) => true,
            _ => false,
        }
    }
}

/// The error with which an encoding ends when the call of `step` fails.
pub open spec fn encode_failure(step: EncodeStep) -> ErrorKind {
    match step {
        EncodeStep::BuildEncoder => ErrorKind::CodecConfigFailure,
        EncodeStep::Output(OutputStep::GuessFormat) => ErrorKind::FormatGuessFailure,
        EncodeStep::Output(OutputStep::CreateFile) => ErrorKind::IoFailure,
        EncodeStep::Output(OutputStep::Failed(kind)) => kind,
        EncodeStep::Output(_) => ErrorKind::MuxFailure,
        EncodeStep::WritePacket { .. } | EncodeStep::FlushMuxer => ErrorKind::MuxFailure,
        EncodeStep::Failed(kind) => kind,
        _ => ErrorKind::CodecProcessingFailure,
    }
}

/// The error with which an encoding ends when the call of `step` fails.
pub fn failure_of(step: EncodeStep) -> (kind: ErrorKind)
    ensures
        kind == encode_failure(step),
{
    match step {
        EncodeStep::BuildEncoder => ErrorKind::CodecConfigFailure,
        EncodeStep::Output(OutputStep::GuessFormat) => ErrorKind::FormatGuessFailure,
        EncodeStep::Output(OutputStep::CreateFile) => ErrorKind::IoFailure,
        EncodeStep::Output(OutputStep::Failed(kind)) => kind,
        EncodeStep::Output(_) => ErrorKind::MuxFailure,
        EncodeStep::WritePacket { .. } | EncodeStep::FlushMuxer => ErrorKind::MuxFailure,
        EncodeStep::Failed(kind) => kind,
        _ => ErrorKind::CodecProcessingFailure,
    }
}

/// The words that say what went wrong where `step` does not go well, for
/// the output at `path`: the operation, then the path. None for a step that
/// makes no call.
pub open spec fn encode_context_text(step: EncodeStep, path: Seq<char>) -> Option<Seq<char>> {
    match step {
        EncodeStep::BuildEncoder => Some(
            operation_text("Failed to create video encoder for output file "@, path),
        ),
        EncodeStep::Output(inner) => output_context_text(inner, path),
        EncodeStep::NextFrame => Some(operation_text("unable to stamp frame for output file "@, path)),
        EncodeStep::PushFrame { .. } => Some(
            operation_text("unable to push frame to encoder for output file "@, path),
        ),
        EncodeStep::TakePacket { .. } => Some(
            operation_text("unable to take packet from encoder for output file "@, path),
        ),
        EncodeStep::WritePacket { .. } => Some(
            operation_text("unable to write packet to output file "@, path),
        ),
        EncodeStep::FlushEncoder => Some(
            operation_text("unable to flush encoder for output file "@, path),
        ),
        EncodeStep::FlushMuxer => Some(operation_text("unable to flush output file "@, path)),
        EncodeStep::Succeeded | EncodeStep::Failed(_) => None,
    }
}

/// The words that say what went wrong where `step` does not go well, for
/// the output at `path`: the operation, then the path. None for a step that
/// makes no call.
pub fn encode_context(step: EncodeStep, path: &str) -> (text: Option<String>)
    ensures
        text.is_some() == encode_context_text(step, path@).is_some(),
        text matches Some(words) ==> Some(words@) == encode_context_text(step, path@),
{
    match step {
        EncodeStep::BuildEncoder => Some(
            operation_words("Failed to create video encoder for output file ", path),
        ),
        EncodeStep::Output(inner) => output_context(inner, path),
        EncodeStep::NextFrame => Some(operation_words("unable to stamp frame for output file ", path)),
        EncodeStep::PushFrame { .. } => Some(
            operation_words("unable to push frame to encoder for output file ", path),
        ),
        EncodeStep::TakePacket { .. } => Some(
            operation_words("unable to take packet from encoder for output file ", path),
        ),
        EncodeStep::WritePacket { .. } => Some(
            operation_words("unable to write packet to output file ", path),
        ),
        EncodeStep::FlushEncoder => Some(
            operation_words("unable to flush encoder for output file ", path),
        ),
        EncodeStep::FlushMuxer => Some(operation_words("unable to flush output file ", path)),
        EncodeStep::Succeeded | EncodeStep::Failed(_) => None,
    }
}

/// The words of the failure with which the encoding ends when the pending
/// step of `session` comes back with `reply`; none where that reply does not
/// end it in failure.
pub open spec fn encode_failure_text(
    session: EncodeSession,
    reply: Reply,
    path: Seq<char>,
) -> Option<Seq<char>> {
    if session.fails_on(reply) {
        encode_context_text(session.step, path)
    } else {
        None
    }
}

/// The words of the failure with which the encoding ends when the pending
/// step of `session` comes back with `reply`, for the output at `path`.
/// There are words exactly where that reply ends the encoding in failure:
/// where the call failed, where no container format was found, and where a
/// frame is beyond what a timestamp can count.
pub fn encode_failure_words(session: EncodeSession, reply: Reply, path: &str) -> (text: Option<
    String,
>)
    ensures
        text.is_some() == session.fails_on(reply),
        text.is_some() == encode_failure_text(session, reply, path@).is_some(),
        text matches Some(words) ==> Some(words@) == encode_failure_text(session, reply, path@),
{
    let after = encode_video(session, reply);
    match (session.step, after.step) {
        (EncodeStep::Failed(_), _) => None,
        (_, EncodeStep::Failed(_)) => encode_context(session.step, path),
        _ => None,
    }
}

/// Every failure of an encoding has its words, and they hold the path: the
/// step that failed names the operation, and the path follows it.
pub proof fn lemma_encode_failure_holds_path(session: EncodeSession, reply: Reply, path: Seq<char>)
    requires
        session.fails_on(reply),
    ensures
        encode_failure_text(session, reply, path) matches Some(words) && ends_with(words, path),
{
    if let EncodeStep::Output(inner) = session.step {
        let opening = OutputSession { step: inner, streams: ENCODED_STREAMS };
        lemma_output_failure_holds_path(opening, reply, path);
    }
    lemma_operation_text_holds_path("Failed to create video encoder for output file "@, path);
    lemma_operation_text_holds_path("unable to stamp frame for output file "@, path);
    lemma_operation_text_holds_path("unable to push frame to encoder for output file "@, path);
    lemma_operation_text_holds_path("unable to take packet from encoder for output file "@, path);
    lemma_operation_text_holds_path("unable to write packet to output file "@, path);
    lemma_operation_text_holds_path("unable to flush encoder for output file "@, path);
    lemma_operation_text_holds_path("unable to flush output file "@, path);
}

/// Advances an encoding by the reply to its pending step. The encoder is
/// built and the writer is opened for its one stream. Then each frame of the
/// source is stamped with its position, in ticks of the encoder's time base,
/// and pushed; after each push the encoder is drained, every packet being
/// stamped with the index of the video stream and written. When the source
/// is at its end the encoder is flushed and drained in the same way, and the
/// writer is flushed last. The first failure ends the encoding; a frame whose
/// position is beyond what a timestamp can count ends it with
/// `CodecProcessingFailure`.
pub fn encode_video(session: EncodeSession, reply: Reply) -> (next: EncodeSession)
    ensures
        next == session.next(reply),
{
    if !session.step.call_shape().accepts(reply) {
        return session;
    }
    let frames = session.frames;
    let done = match reply {
        Reply::Failed => {
            return EncodeSession { step: EncodeStep::Failed(failure_of(session.step)), frames };
        },
        Reply::Done => true,
        Reply::Empty => false,
    };
    match session.step {
        EncodeStep::BuildEncoder => EncodeSession {
            step: EncodeStep::Output(OutputSession::begin(ENCODED_STREAMS).step),
            frames,
        },
        EncodeStep::Output(inner) => {
            let opening = open_output(OutputSession { step: inner, streams: ENCODED_STREAMS }, reply);
            let step = match opening.step {
                OutputStep::Opened => EncodeStep::NextFrame,
                OutputStep::Failed(kind) => EncodeStep::Failed(kind),
                other => EncodeStep::Output(other),
            };
            EncodeSession { step, frames }
        },
        EncodeStep::NextFrame => if !done {
            EncodeSession { step: EncodeStep::FlushEncoder, frames }
        } else {
            match frame_timestamp(frames) {
                Some(stamp) => EncodeSession {
                    step: EncodeStep::PushFrame { stamp },
                    frames: frames + 1,
                },
                None => EncodeSession {
                    step: EncodeStep::Failed(ErrorKind::CodecProcessingFailure),
                    frames,
                },
            }
        },
        EncodeStep::PushFrame { .. } => EncodeSession {
            step: EncodeStep::TakePacket { flushed: false },
            frames,
        },
        EncodeStep::TakePacket { flushed } => if done {
            EncodeSession {
                step: EncodeStep::WritePacket { stream_index: VIDEO_STREAM_INDEX, flushed },
                frames,
            }
        } else if flushed {
            EncodeSession { step: EncodeStep::FlushMuxer, frames }
        } else {
            EncodeSession { step: EncodeStep::NextFrame, frames }
        },
        EncodeStep::WritePacket { flushed, .. } => EncodeSession {
            step: EncodeStep::TakePacket { flushed },
            frames,
        },
        EncodeStep::FlushEncoder => EncodeSession {
            step: EncodeStep::TakePacket { flushed: true },
            frames,
        },
        EncodeStep::FlushMuxer => EncodeSession { step: EncodeStep::Succeeded, frames },
        EncodeStep::Succeeded | EncodeStep::Failed(_) => session,
    }
}

} // verus!
