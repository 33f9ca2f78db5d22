use crate::error::{
    ends_with, lemma_operation_text_holds_path, operation_text, operation_words, ErrorKind,
};
use crate::input::{
    input_context, input_context_text, lemma_input_failure_holds_path, open_input,
    select_video_stream, selected_stream, InputSession, InputStep,
};
use crate::reply::Reply;
use vstd::prelude::*;

verus! {

/// What came back from an outside call of a decoding.
#[derive(Debug)]
pub enum DecodeEvent {
    /// The plain reply of a call that hands no value to the session.
    Reply(Reply),
    /// The stream table of the container: for each stream, in the order of
    /// their indices, whether it is a video stream.
    Streams(Vec<bool>),
    /// The reader gave a packet of the stream `stream_index`.
    Packet { stream_index: usize },
}

/// What a decoding awaits next. Each step but the last two names one outside
/// call; its event advances the session.
#[derive(Clone, Copy, Debug, PartialEq, Eq, Structural)]
pub enum DecodeStep {
    /// Open the container reader; the inner step is the one to perform.
    Input(InputStep),
    /// Report the stream table of the container.
    ListStreams,
    /// Build the decoder from the parameters of the stream `stream`.
    BuildDecoder { stream: usize },
    /// Ask the reader for its next packet.
    ReadPacket,
    /// Push the packet just read to the decoder.
    PushPacket,
    /// Pull a frame from the decoder. `flushed` tells whether the decoder
    /// has been flushed already.
    TakeFrame { flushed: bool },
    /// Hand the frame just pulled to the frame callback.
    DeliverFrame { flushed: bool },
    /// Tell the decoder that no packet follows.
    FlushDecoder,
    /// Every frame was delivered.
    Succeeded,
    /// The decoding was abandoned at its first error.
    Failed(ErrorKind),
}

/// One decoding of the first video stream of a container.
#[derive(Clone, Copy, Debug, PartialEq, Eq, Structural)]
pub struct DecodeSession {
    /// The step that awaits its event.
    pub step: DecodeStep,
    /// The index of the stream that is decoded, once it is selected.
    pub stream: Option<usize>,
}

impl DecodeStep {
    /// Whether `event` is one that this step takes.
    pub open spec fn admits(self, event: DecodeEvent) -> bool {
        match self {
            DecodeStep::Input(inner) => event matches DecodeEvent::Reply(reply)
                && inner.shape().admits(reply),
            DecodeStep::ListStreams => event is Streams,
            DecodeStep::ReadPacket => event is Packet || event == DecodeEvent::Reply(Reply::Empty)
                || event == DecodeEvent::Reply(Reply::Failed),
            DecodeStep::TakeFrame { .. } => event is Reply,
            DecodeStep::DeliverFrame { .. } => event == DecodeEvent::Reply(Reply::Done),
            DecodeStep::BuildDecoder { .. } | DecodeStep::PushPacket | DecodeStep::FlushDecoder =>
                event == DecodeEvent::Reply(Reply::Done) || event == DecodeEvent::Reply(
                    Reply::Failed,
                ),
            DecodeStep::Succeeded | DecodeStep::Failed(_) => false,
        }
    }

    /// Whether `event` is one that this step takes.
    pub fn accepts(self, event: &DecodeEvent) -> (ok: bool)
        ensures
            ok == self.admits(*event),
    {
        match self {
            DecodeStep::Input(inner) => match event {
                DecodeEvent::Reply(reply) => inner.call_shape().accepts(*reply),
                _ => false,
            },
            DecodeStep::ListStreams => match event {
                DecodeEvent::Streams(_) => true,
                _ => false,
            },
            DecodeStep::ReadPacket => match event {
                DecodeEvent::Packet { .. } => true,
                DecodeEvent::Reply(Reply::Empty) | DecodeEvent::Reply(Reply::Failed) => true,
                _ => false,
            },
            DecodeStep::TakeFrame { .. } => match event {
                DecodeEvent::Reply(_) => true,
                _ => false,
            },
            DecodeStep::DeliverFrame { .. } => match event {
                DecodeEvent::Reply(Reply::Done) => true,
                _ => false,
            },
            DecodeStep::BuildDecoder { .. } | DecodeStep::PushPacket | DecodeStep::FlushDecoder =>
                match event {
                    DecodeEvent::Reply(Reply::Done) | DecodeEvent::Reply(Reply::Failed) => true,
                    _ => false,
                },
            DecodeStep::Succeeded | DecodeStep::Failed(_) => false,
        }
    }
}

/// The step of a decoding that stands for the step `inner` of opening its
/// input: once the reader is open its stream table is asked for, and a
/// failure to open it is a failure of the decoding.
pub open spec fn after_input(inner: InputStep) -> DecodeStep {
    match inner {
        InputStep::Opened => DecodeStep::ListStreams,
        InputStep::Failed(kind) => DecodeStep::Failed(kind),
        _ => DecodeStep::Input(inner),
    }
}

/// The error with which a decoding ends when the call of `step` fails.
pub open spec fn decode_failure(step: DecodeStep) -> ErrorKind {
    match step {
        DecodeStep::Input(InputStep::OpenFile) => ErrorKind::IoFailure,
        DecodeStep::Input(InputStep::Failed(kind)) => kind,
        DecodeStep::Input(_) | DecodeStep::ListStreams | DecodeStep::ReadPacket =>
            ErrorKind::DemuxFailure,
        DecodeStep::BuildDecoder { .. } => ErrorKind::CodecConfigFailure,
        DecodeStep::Failed(kind) => kind,
        _ => ErrorKind::CodecProcessingFailure,
    }
}

impl DecodeSession {
    /// The session before anything was done.
    pub open spec fn start() -> DecodeSession {
        DecodeSession { step: DecodeStep::Input(InputStep::OpenFile), stream: None }
    }

    /// The session after its pending step came back with `event`. An event
    /// that the step does not take leaves the session as it is.
    pub open spec fn next(self, event: DecodeEvent) -> DecodeSession {
        if !self.step.admits(event) {
            self
        } else if event == DecodeEvent::Reply(Reply::Failed) {
            DecodeSession { step: DecodeStep::Failed(decode_failure(self.step)), stream: self.stream }
        } else {
            match self.step {
                DecodeStep::Input(inner) => DecodeSession {
                    step: after_input(InputSession { step: inner }.next(event->Reply_0).step),
                    stream: self.stream,
                },
                DecodeStep::ListStreams => match selected_stream(event->Streams_0@) {
                    Some(stream) => DecodeSession {
                        step: DecodeStep::BuildDecoder { stream },
                        stream: Some(stream),
                    },
                    None => DecodeSession {
                        step: DecodeStep::Failed(ErrorKind::NoVideoStreamFound),
                        stream: self.stream,
                    },
                },
                DecodeStep::BuildDecoder { .. } => DecodeSession {
                    step: DecodeStep::ReadPacket,
                    stream: self.stream,
                },
                DecodeStep::ReadPacket => match event {
                    DecodeEvent::Packet { stream_index } => DecodeSession {
                        step: if self.stream == Some(stream_index) {
                            DecodeStep::PushPacket
                        } else {
                            DecodeStep::ReadPacket
                        },
                        stream: self.stream,
                    },
                    _ => DecodeSession { step: DecodeStep::FlushDecoder, stream: self.stream },
                },
                DecodeStep::PushPacket => DecodeSession {
                    step: DecodeStep::TakeFrame { flushed: false },
                    stream: self.stream,
                },
                DecodeStep::TakeFrame { flushed } => DecodeSession {
                    step: if event == DecodeEvent::Reply(Reply::Done) {
                        DecodeStep::DeliverFrame { flushed }
                    } else if flushed {
                        DecodeStep::Succeeded
                    } else {
                        DecodeStep::ReadPacket
                    },
                    stream: self.stream,
                },
                DecodeStep::DeliverFrame { flushed } => DecodeSession {
                    step: DecodeStep::TakeFrame { flushed },
                    stream: self.stream,
                },
                DecodeStep::FlushDecoder => DecodeSession {
                    step: DecodeStep::TakeFrame { flushed: true },
                    stream: self.stream,
                },
                DecodeStep::Succeeded | DecodeStep::Failed(_) => self,
            }
        }
    }

    /// Whether the session is over, succeeded or failed.
    pub open spec fn closed(self) -> bool {
        self.step is Succeeded || self.step is Failed
    }

    /// Whether the decoding ends in failure when its pending step comes back
    /// with `event`.
    pub open spec fn fails_on(self, event: DecodeEvent) -> bool {
        !(self.step is Failed) && self.next(event).step is Failed
    }

    /// Begins a decoding.
    pub fn begin() -> (session: DecodeSession)
        ensures
            session == DecodeSession::start(),
    {
        DecodeSession { step: DecodeStep::Input(InputStep::OpenFile), stream: None }
    }

    /// Whether the session is over, succeeded or failed.
    pub fn is_closed(&self) -> (over: bool)
        ensures
            over == self.closed(),
    {
        match self.step {
            DecodeStep::Succeeded | DecodeStep::Failed(_) => true,
            _ => false,
        }
    }
}

/// The error with which a decoding ends when the call of `step` fails.
pub fn failure_of(step: DecodeStep) -> (kind: ErrorKind)
    ensures
        kind == decode_failure(step),
{
    match step {
        DecodeStep::Input(InputStep::OpenFile) => ErrorKind::IoFailure,
        DecodeStep::Input(InputStep::Failed(kind)) => kind,
        DecodeStep::Input(_) | DecodeStep::ListStreams | DecodeStep::ReadPacket =>
            ErrorKind::DemuxFailure,
        DecodeStep::BuildDecoder { .. } => ErrorKind::CodecConfigFailure,
        DecodeStep::Failed(kind) => kind,
        _ => ErrorKind::CodecProcessingFailure,
    }
}

/// The words that say what went wrong where `step` does not go well, for
/// the input at `path`: the operation, then the path. None for a step that
/// cannot go wrong.
pub open spec fn decode_context_text(step: DecodeStep, path: Seq<char>) -> Option<Seq<char>> {
    match step {
        DecodeStep::Input(inner) => input_context_text(inner, path),
        DecodeStep::ListStreams => Some(operation_text("no video stream in input file "@, path)),
        DecodeStep::BuildDecoder { .. } => Some(
            operation_text("unable to create video decoder for input file "@, path),
        ),
        DecodeStep::ReadPacket => Some(
            operation_text("unable to read packet from input file "@, path),
        ),
        DecodeStep::PushPacket => Some(
            operation_text("unable to push packet to decoder for input file "@, path),
        ),
        DecodeStep::TakeFrame { .. } => Some(
            operation_text("unable to take frame from decoder for input file "@, path),
        ),
        DecodeStep::FlushDecoder => Some(
            operation_text("unable to flush decoder for input file "@, path),
        ),
        DecodeStep::DeliverFrame { .. } | DecodeStep::Succeeded | DecodeStep::Failed(_) => None,
    }
}

/// The words that say what went wrong where `step` does not go well, for
/// the input at `path`: the operation, then the path. None for a step that
/// cannot go wrong.
pub fn decode_context(step: DecodeStep, path: &str) -> (text: Option<String>)
    ensures
        text.is_some() == decode_context_text(step, path@).is_some(),
        text matches Some(words) ==> Some(words@) == decode_context_text(step, path@),
{
    match step {
        DecodeStep::Input(inner) => input_context(inner, path),
        DecodeStep::ListStreams => Some(operation_words("no video stream in input file ", path)),
        DecodeStep::BuildDecoder { .. } => Some(
            operation_words("unable to create video decoder for input file ", path),
        ),
        DecodeStep::ReadPacket => Some(
            operation_words("unable to read packet from input file ", path),
        ),
        DecodeStep::PushPacket => Some(
            operation_words("unable to push packet to decoder for input file ", path),
        ),
        DecodeStep::TakeFrame { .. } => Some(
            operation_words("unable to take frame from decoder for input file ", path),
        ),
        DecodeStep::FlushDecoder => Some(
            operation_words("unable to flush decoder for input file ", path),
        ),
        DecodeStep::DeliverFrame { .. } | DecodeStep::Succeeded | DecodeStep::Failed(_) => None,
    }
}

/// The words of the failure with which the decoding ends when the pending
/// step of `session` comes back with `event`; none where that event does not
/// end it in failure.
pub open spec fn decode_failure_text(
    session: DecodeSession,
    event: DecodeEvent,
    path: Seq<char>,
) -> Option<Seq<char>> {
    if session.fails_on(event) {
        decode_context_text(session.step, path)
    } else {
        None
    }
}

/// The words of the failure with which the decoding ends when the pending
/// step of `session` comes back with `event`, for the input at `path`. There
/// are words exactly where that event ends the decoding in failure: where
/// the call failed, and where the container holds no video stream.
pub fn decode_failure_words(session: DecodeSession, event: &DecodeEvent, path: &str) -> (text:
    Option<String>)
    ensures
        text.is_some() == session.fails_on(*event),
        text.is_some() == decode_failure_text(session, *event, path@).is_some(),
        text matches Some(words) ==> Some(words@) == decode_failure_text(session, *event, path@),
{
    if !session.step.accepts(event) {
        return None;
    }
    let fails = match event {
        DecodeEvent::Reply(Reply::Failed) => true,
        DecodeEvent::Streams(kinds) => select_video_stream(kinds).is_none(),
        _ => false,
    };
    if fails {
        decode_context(session.step, path)
    } else {
        None
    }
}

/// Every failure of a decoding has its words, and they hold the path: the
/// step that failed names the operation, and the path follows it.
pub proof fn lemma_decode_failure_holds_path(
    session: DecodeSession,
    event: DecodeEvent,
    path: Seq<char>,
)
    requires
        session.fails_on(event),
    ensures
        decode_failure_text(session, event, path) matches Some(words) && ends_with(words, path),
{
    if let DecodeStep::Input(inner) = session.step {
        lemma_input_failure_holds_path(InputSession { step: inner }, event->Reply_0, path);
    }
    lemma_operation_text_holds_path("no video stream in input file "@, path);
    lemma_operation_text_holds_path("unable to create video decoder for input file "@, path);
    lemma_operation_text_holds_path("unable to read packet from input file "@, path);
    lemma_operation_text_holds_path("unable to push packet to decoder for input file "@, path);
    lemma_operation_text_holds_path("unable to take frame from decoder for input file "@, path);
    lemma_operation_text_holds_path("unable to flush decoder for input file "@, path);
}

/// Advances a decoding by the event that its pending step came back with.
/// The reader is opened and the first video stream of the container is
/// selected; without one the decoding fails before a decoder is built. Then
/// each packet of the reader that belongs to the selected stream is pushed to
/// the decoder, packets of other streams being passed over; after each push
/// the decoder is drained, every frame being handed to the frame callback
/// before the next one is pulled. When the reader is at its end the decoder
/// is flushed and drained in the same way. The first failure ends the
/// decoding.
pub fn decode_video(session: DecodeSession, event: DecodeEvent) -> (next: DecodeSession)
    ensures
        next == session.next(event),
{
    if !session.step.accepts(&event) {
        return session;
    }
    let stream = session.stream;
    match event {
        DecodeEvent::Reply(Reply::Failed) => DecodeSession {
            step: DecodeStep::Failed(failure_of(session.step)),
            stream,
        },
        DecodeEvent::Streams(kinds) => match select_video_stream(&kinds) {
            Some(first) => DecodeSession {
                step: DecodeStep::BuildDecoder { stream: first },
                stream: Some(first),
            },
            None => DecodeSession {
                step: DecodeStep::Failed(ErrorKind::NoVideoStreamFound),
                stream,
            },
        },
        DecodeEvent::Packet { stream_index } => {
            let wanted = match stream {
                Some(selected) => selected == stream_index,
                None => false,
            };
            DecodeSession {
                step: if wanted {
                    DecodeStep::PushPacket
                } else {
                    DecodeStep::ReadPacket
                },
                stream,
            }
        },
        DecodeEvent::Reply(reply) => {
            let done = match reply {
                Reply::Done => true,
                _ => false,
            };
            let step = match session.step {
                DecodeStep::Input(inner) => match open_input(InputSession { step: inner }, reply).step {
                    InputStep::Opened => DecodeStep::ListStreams,
                    InputStep::Failed(kind) => DecodeStep::Failed(kind),
                    other => DecodeStep::Input(other),
                },
                DecodeStep::BuildDecoder { .. } => DecodeStep::ReadPacket,
                DecodeStep::ReadPacket => DecodeStep::FlushDecoder,
                DecodeStep::PushPacket => DecodeStep::TakeFrame { flushed: false },
                DecodeStep::TakeFrame { flushed } => if done {
                    DecodeStep::DeliverFrame { flushed }
                } else if flushed {
                    DecodeStep::Succeeded
                } else {
                    DecodeStep::ReadPacket
                },
                DecodeStep::DeliverFrame { flushed } => DecodeStep::TakeFrame { flushed },
                DecodeStep::FlushDecoder => DecodeStep::TakeFrame { flushed: true },
                other => other,
            };
            DecodeSession { step, stream }
        },
    }
}

} // verus!
