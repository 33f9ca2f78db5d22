use crate::adapter::{Adapter, AdapterCall, Phase};
use crate::encode::{
    encode_failure, EncodeSession, EncodeStep, ENCODED_STREAMS, VIDEO_STREAM_INDEX,
};
use crate::error::ErrorKind;
use crate::output::OutputStep;
use crate::reply::{CallShape, Reply};
use crate::time::frame_timestamp_spec;
use vstd::prelude::*;

verus! {

/// The encoding after the first `count` of `replies` came in, each answering
/// the step that was pending then.
pub open spec fn encode_at(replies: Seq<Reply>, count: nat) -> EncodeSession
    decreases count,
{
    if count == 0 {
        EncodeSession::start()
    } else {
        encode_at(replies, (count - 1) as nat).next(replies[count - 1])
    }
}

/// Whether every one of `replies` is a reply that the step it answers takes.
pub open spec fn encode_faithful(replies: Seq<Reply>) -> bool {
    forall|k: nat|
        k < replies.len() ==> (#[trigger] encode_at(replies, k)).step.shape().admits(
            replies[k as int],
        )
}

/// Whether `step`, answered by `reply`, obtained a frame from the source.
pub open spec fn offers_frame(step: EncodeStep, reply: Reply) -> bool {
    step == EncodeStep::NextFrame && reply == Reply::Done
}

/// Whether `step`, answered by `reply`, pushed a frame into the encoder.
pub open spec fn pushes_frame(step: EncodeStep, reply: Reply) -> bool {
    step is PushFrame && reply == Reply::Done
}

/// Whether `step`, answered by `reply`, pulled a packet out of the encoder.
pub open spec fn takes_packet(step: EncodeStep, reply: Reply) -> bool {
    step is TakePacket && reply == Reply::Done
}

/// Whether `step`, answered by `reply`, wrote a packet to the container.
pub open spec fn writes_packet(step: EncodeStep, reply: Reply) -> bool {
    step is WritePacket && reply == Reply::Done
}

/// The call to the encoder that `step` stands for, if it is one.
pub open spec fn encoder_call(step: EncodeStep) -> Option<AdapterCall> {
    match step {
        EncodeStep::PushFrame { .. } => Some(AdapterCall::Push),
        EncodeStep::TakePacket { .. } => Some(AdapterCall::Take),
        EncodeStep::FlushEncoder => Some(AdapterCall::Flush),
        _ => None,
    }
}

/// What an encoding has done so far, as an onlooker would count it.
pub struct EncodeTally {
    /// How many frames the source gave.
    pub frames_offered: nat,
    /// How many frames the encoder took.
    pub frames_pushed: nat,
    /// How many packets the encoder gave.
    pub packets_taken: nat,
    /// How many packets the writer took.
    pub packets_written: nat,
    /// The protocol state of the encoder.
    pub encoder: Adapter,
}

impl EncodeTally {
    /// The tally before anything was done.
    pub open spec fn start() -> EncodeTally {
        EncodeTally {
            frames_offered: 0,
            frames_pushed: 0,
            packets_taken: 0,
            packets_written: 0,
            encoder: Adapter::fresh(),
        }
    }

    /// The tally after `step` came back with `reply`.
    pub open spec fn record(self, step: EncodeStep, reply: Reply) -> EncodeTally {
        EncodeTally {
            frames_offered: self.frames_offered + if offers_frame(step, reply) {
                1nat
            } else {
                0nat
            },
            frames_pushed: self.frames_pushed + if pushes_frame(step, reply) {
                1nat
            } else {
                0nat
            },
            packets_taken: self.packets_taken + if takes_packet(step, reply) {
                1nat
            } else {
                0nat
            },
            packets_written: self.packets_written + if writes_packet(step, reply) {
                1nat
            } else {
                0nat
            },
            encoder: match encoder_call(step) {
                Some(call) => self.encoder.after(call, reply),
                None => self.encoder,
            },
        }
    }
}

/// The tally of the first `count` calls of an encoding.
pub open spec fn encode_tally(replies: Seq<Reply>, count: nat) -> EncodeTally
    decreases count,
{
    if count == 0 {
        EncodeTally::start()
    } else {
        let before = (count - 1) as nat;
        encode_tally(replies, before).record(
            encode_at(replies, before).step,
            replies[before as int],
        )
    }
}

/// Whether `step` lies after the opening of the output.
pub open spec fn past_opening(step: EncodeStep) -> bool {
    !(step is BuildEncoder || step is Output || step is Failed)
}

/// Whether `step` lies after the flush of the encoder.
pub open spec fn past_flush(step: EncodeStep) -> bool {
    match step {
        EncodeStep::TakePacket { flushed } => flushed,
        EncodeStep::WritePacket { flushed, .. } => flushed,
        EncodeStep::FlushMuxer | EncodeStep::Succeeded => true,
        _ => false,
    }
}

/// The step that is pending after `count` calls that all went well, while
/// the output is not open yet.
pub open spec fn opening_step(count: nat) -> EncodeStep {
    if count == 0 {
        EncodeStep::BuildEncoder
    } else if count == 1 {
        EncodeStep::Output(OutputStep::GuessFormat)
    } else if count == 2 {
        EncodeStep::Output(OutputStep::CreateFile)
    } else if count == 3 {
        EncodeStep::Output(OutputStep::AddStream { index: 0 })
    } else {
        EncodeStep::Output(OutputStep::BuildMuxer)
    }
}

/// What holds of an encoding that has not failed, after `count` calls.
#[verifier::opaque]
spec fn encode_inv(session: EncodeSession, tally: EncodeTally, count: nat) -> bool {
    let step = session.step;
    let encoder = tally.encoder;
    step is Failed || {
        &&& session.frames == tally.frames_offered
        &&& tally.frames_offered == tally.frames_pushed + if step is PushFrame {
            1nat
        } else {
            0nat
        }
        &&& tally.packets_taken == tally.packets_written + if step is WritePacket {
            1nat
        } else {
            0nat
        }
        &&& step matches EncodeStep::PushFrame { stamp } ==> stamp == frame_timestamp_spec(
            tally.frames_offered - 1,
        ) && tally.frames_offered - 1 <= i64::MAX
        &&& step matches EncodeStep::WritePacket { stream_index, .. } ==> stream_index == 0
        &&& !past_opening(step) ==> tally == EncodeTally::start() && count < 5 && step
            == opening_step(count)
        &&& (step is TakePacket || step is WritePacket) ==> !encoder.drained
        &&& (step is NextFrame || step is PushFrame || step is FlushEncoder || step is FlushMuxer
            || step is Succeeded) ==> encoder.drained
        &&& past_flush(step) <==> encoder.phase == Phase::Flushed
        &&& past_opening(step) ==> count >= 5
    }
}

proof fn lemma_encode_inv_step(session: EncodeSession, tally: EncodeTally, count: nat, reply: Reply)
    requires
        encode_inv(session, tally, count),
        session.step.shape().admits(reply),
    ensures
        encode_inv(session.next(reply), tally.record(session.step, reply), count + 1),
{
    reveal(encode_inv);
}

proof fn lemma_encode_inv(replies: Seq<Reply>, count: nat)
    requires
        encode_faithful(replies),
        count <= replies.len(),
    ensures
        encode_inv(encode_at(replies, count), encode_tally(replies, count), count),
    decreases count,
{
    if count == 0 {
        reveal(encode_inv);
    } else {
        let before = (count - 1) as nat;
        lemma_encode_inv(replies, before);
        assert(encode_at(replies, before).step.shape().admits(replies[before as int]));
        lemma_encode_inv_step(
            encode_at(replies, before),
            encode_tally(replies, before),
            before,
            replies[before as int],
        );
    }
}

/// Once an encoding has succeeded or failed, no further call is made: the
/// end is reached with the last reply.
pub proof fn lemma_encode_ends_once(replies: Seq<Reply>, count: nat)
    requires
        encode_faithful(replies),
        count <= replies.len(),
        encode_at(replies, count).closed(),
    ensures
        count == replies.len(),
{
    if count < replies.len() {
        assert(encode_at(replies, count).step.shape().admits(replies[count as int]));
    }
}

/// An encoding never comes to rest inside the opening of its output: while
/// it is not over, its pending step is a call that takes some reply. The
/// inner steps for the opened and the failed output stand for themselves in
/// no run; the encoding goes on to the frames, or has failed.
pub proof fn lemma_encode_awaits_a_call(replies: Seq<Reply>, count: nat)
    requires
        encode_faithful(replies),
        count <= replies.len(),
    ensures
        encode_at(replies, count).closed() <==> encode_at(replies, count).step.shape()
            == CallShape::Closed,
        encode_at(replies, count).step matches EncodeStep::Output(inner) ==> !(inner is Opened)
            && !(inner is Failed),
{
    reveal(encode_inv);
    lemma_encode_inv(replies, count);
}

/// The frame at position `n` of the source is pushed with the timestamp `n`
/// in the encoder's time base, that is `n / 25` seconds: a frame is stamped
/// with the number of frames that were pushed before it.
pub proof fn lemma_encode_stamps(replies: Seq<Reply>, count: nat)
    requires
        encode_faithful(replies),
        count <= replies.len(),
        encode_at(replies, count).step is PushFrame,
    ensures
        ({
            let stamp = encode_at(replies, count).step->stamp;
            let position = encode_tally(replies, count).frames_pushed;
            &&& stamp == frame_timestamp_spec(position as int)
            &&& stamp.value == position
            &&& stamp.is_seconds(position as int, 25)
            &&& encode_tally(replies, count).frames_offered == position + 1
        }),
{
    reveal(encode_inv);
    lemma_encode_inv(replies, count);
}

/// The number of frames that the encoder took never goes down.
proof fn lemma_frames_pushed_grow(replies: Seq<Reply>, earlier: nat, later: nat)
    requires
        earlier <= later,
    ensures
        encode_tally(replies, earlier).frames_pushed <= encode_tally(replies, later).frames_pushed,
    decreases later,
{
    if earlier < later {
        lemma_frames_pushed_grow(replies, earlier, (later - 1) as nat);
    }
}

/// Timestamps grow along the frames: of two frames, the one that is pushed
/// later has the greater timestamp.
pub proof fn lemma_encode_stamps_increase(replies: Seq<Reply>, earlier: nat, later: nat)
    requires
        encode_faithful(replies),
        earlier < later <= replies.len(),
        encode_at(replies, earlier).step is PushFrame,
        encode_at(replies, later).step is PushFrame,
    ensures
        encode_at(replies, earlier).step->stamp.base == encode_at(replies, later).step->stamp.base,
        encode_at(replies, earlier).step->stamp.value < encode_at(replies, later).step->stamp.value,
{
    lemma_encode_stamps(replies, earlier);
    lemma_encode_stamps(replies, later);
    let reply = replies[earlier as int];
    assert(encode_at(replies, earlier).step.shape().admits(reply));
    assert(encode_at(replies, earlier + 1) == encode_at(replies, earlier).next(reply));
    if reply == Reply::Failed {
        lemma_encode_ends_once(replies, earlier + 1);
    }
    assert(encode_tally(replies, earlier + 1).frames_pushed == encode_tally(
        replies,
        earlier,
    ).frames_pushed + 1);
    lemma_frames_pushed_grow(replies, earlier + 1, later);
}

/// As long as an encoding has not failed, every frame that the source gave
/// has been pushed, but for the one that is about to be, and every packet
/// that the encoder gave has been written, but for the one that is about to
/// be.
pub proof fn lemma_encode_loses_nothing(replies: Seq<Reply>, count: nat)
    requires
        encode_faithful(replies),
        count <= replies.len(),
        !(encode_at(replies, count).step is Failed),
    ensures
        ({
            let session = encode_at(replies, count);
            let tally = encode_tally(replies, count);
            &&& session.frames == tally.frames_offered
            &&& tally.frames_offered == tally.frames_pushed + if session.step is PushFrame {
                1nat
            } else {
                0nat
            }
            &&& tally.packets_taken == tally.packets_written + if session.step is WritePacket {
                1nat
            } else {
                0nat
            }
        }),
{
    reveal(encode_inv);
    lemma_encode_inv(replies, count);
}

/// The encoder is driven by its protocol: a frame is pushed, and the end of
/// the input signalled, only when the encoder has been drained and not been
/// flushed before; and the writer is flushed only when the encoder has been
/// flushed and drained.
pub proof fn lemma_encode_protocol(replies: Seq<Reply>, count: nat)
    requires
        encode_faithful(replies),
        count < replies.len(),
    ensures
        encoder_call(encode_at(replies, count).step) matches Some(call) ==> encode_tally(
            replies,
            count,
        ).encoder.permits(call) && Adapter::answers(call, replies[count as int]),
        encode_at(replies, count).step is FlushMuxer ==> encode_tally(
            replies,
            count,
        ).encoder.exhausted(),
{
    reveal(encode_inv);
    lemma_encode_inv(replies, count);
    assert(encode_at(replies, count).step.shape().admits(replies[count as int]));
}

/// The writer is flushed once, as the last call of the encoding, after every
/// packet that the encoder gave has been written.
pub proof fn lemma_encode_flushes_writer_last(replies: Seq<Reply>, count: nat)
    requires
        encode_faithful(replies),
        count < replies.len(),
        encode_at(replies, count).step is FlushMuxer,
    ensures
        count + 1 == replies.len(),
        encode_tally(replies, count).packets_written == encode_tally(replies, count).packets_taken,
        encode_tally(replies, count).frames_pushed == encode_tally(replies, count).frames_offered,
        forall|k: nat| k < count ==> !((#[trigger] encode_at(replies, k)).step is FlushMuxer),
{
    reveal(encode_inv);
    lemma_encode_inv(replies, count);
    let reply = replies[count as int];
    assert(encode_at(replies, count).step.shape().admits(reply));
    assert(encode_at(replies, count + 1) == encode_at(replies, count).next(reply));
    lemma_encode_ends_once(replies, count + 1);
    assert forall|k: nat| k < count implies !((#[trigger] encode_at(replies, k)).step
        is FlushMuxer) by {
        if encode_at(replies, k).step is FlushMuxer {
            let early = replies[k as int];
            assert(encode_at(replies, k).step.shape().admits(early));
            assert(encode_at(replies, k + 1) == encode_at(replies, k).next(early));
            lemma_encode_ends_once(replies, k + 1);
        }
    }
}

/// Before the first frame is asked for, the calls come in one fixed order:
/// the encoder is built, the format inferred, the file created, the one
/// stream declared and the writer built; and each of them went well.
pub proof fn lemma_encode_opening(replies: Seq<Reply>, count: nat, early: nat)
    requires
        encode_faithful(replies),
        count <= replies.len(),
        past_opening(encode_at(replies, count).step),
        early < 5,
    ensures
        count >= 5,
        encode_at(replies, early).step == opening_step(early),
        replies[early as int] == Reply::Done,
{
    reveal(encode_inv);
    lemma_encode_inv(replies, count);
    lemma_encode_inv(replies, early);
    lemma_encode_inv(replies, early + 1);
    let here = encode_at(replies, early);
    let there = encode_at(replies, early + 1);
    assert(here.step.shape().admits(replies[early as int]));
    assert(there == here.next(replies[early as int]));
    if here.step is Failed {
        lemma_encode_ends_once(replies, early);
    }
    if there.step is Failed {
        lemma_encode_ends_once(replies, early + 1);
    }
}

/// Every packet is written with the index of the video stream, which is the
/// index of the one stream that was declared when the output was opened.
pub proof fn lemma_encode_writes_declared_stream(replies: Seq<Reply>, count: nat)
    requires
        encode_faithful(replies),
        count <= replies.len(),
        encode_at(replies, count).step is WritePacket,
    ensures
        encode_at(replies, count).step->stream_index == VIDEO_STREAM_INDEX,
        VIDEO_STREAM_INDEX < ENCODED_STREAMS,
        count > 3,
        encode_at(replies, 3).step == EncodeStep::Output(
            OutputStep::AddStream { index: VIDEO_STREAM_INDEX },
        ),
        replies[3] == Reply::Done,
{
    reveal(encode_inv);
    lemma_encode_inv(replies, count);
    lemma_encode_opening(replies, count, 3);
}

/// An encoding that succeeded has pushed every frame that the source gave
/// and written every packet that the encoder gave; its encoder was flushed
/// and drained; the flush of the writer was its last call; and no call
/// failed.
pub proof fn lemma_encode_success(replies: Seq<Reply>)
    requires
        encode_faithful(replies),
        encode_at(replies, replies.len()).step is Succeeded,
    ensures
        ({
            let tally = encode_tally(replies, replies.len());
            &&& tally.frames_pushed == tally.frames_offered
            &&& tally.packets_written == tally.packets_taken
            &&& tally.encoder.exhausted()
        }),
        replies.len() >= 1,
        encode_at(replies, (replies.len() - 1) as nat).step is FlushMuxer,
        forall|j: int| 0 <= j < replies.len() ==> #[trigger] replies[j] != Reply::Failed,
{
    reveal(encode_inv);
    let count = replies.len();
    lemma_encode_inv(replies, count);
    let before = (count - 1) as nat;
    assert(encode_at(replies, before).step.shape().admits(replies[before as int]));
    assert forall|j: int| 0 <= j < replies.len() implies #[trigger] replies[j]
        != Reply::Failed by {
        if replies[j] == Reply::Failed {
            assert(encode_at(replies, j as nat).step.shape().admits(replies[j]));
            assert(encode_at(replies, (j + 1) as nat) == encode_at(replies, j as nat).next(
                replies[j],
            ));
            lemma_encode_ends_once(replies, (j + 1) as nat);
        }
    }
}

/// Whether an encoding whose pending step is that of `session` ends with the
/// error `kind` when that step comes back with `reply`.
pub open spec fn encode_fails_with(session: EncodeSession, reply: Reply, kind: ErrorKind) -> bool {
    ||| reply == Reply::Failed && kind == encode_failure(session.step)
    ||| session.step == EncodeStep::Output(OutputStep::GuessFormat) && reply == Reply::Empty
        && kind == ErrorKind::FormatGuessFailure
    ||| session.step == EncodeStep::NextFrame && reply == Reply::Done && session.frames
        > i64::MAX && kind == ErrorKind::CodecProcessingFailure
}

/// An encoding fails only on its last call, with the error that belongs to
/// that call: the first error ends the encoding, and its kind tells which
/// call it was. No call before the last one had failed.
pub proof fn lemma_encode_first_failure(replies: Seq<Reply>)
    requires
        encode_faithful(replies),
        encode_at(replies, replies.len()).step is Failed,
    ensures
        replies.len() >= 1,
        encode_fails_with(
            encode_at(replies, (replies.len() - 1) as nat),
            replies.last(),
            encode_at(replies, replies.len()).step->Failed_0,
        ),
        forall|j: int| 0 <= j < replies.len() - 1 ==> #[trigger] replies[j] != Reply::Failed,
{
    let count = replies.len();
    let before = (count - 1) as nat;
    assert(encode_at(replies, before).step.shape().admits(replies[before as int]));
    assert forall|j: int| 0 <= j < replies.len() - 1 implies #[trigger] replies[j]
        != Reply::Failed by {
        if replies[j] == Reply::Failed {
            assert(encode_at(replies, j as nat).step.shape().admits(replies[j]));
            assert(encode_at(replies, (j + 1) as nat) == encode_at(replies, j as nat).next(
                replies[j],
            ));
            lemma_encode_ends_once(replies, (j + 1) as nat);
        }
    }
}

/// Where no container format can be inferred from the output path, the
/// encoding fails with `FormatGuessFailure` and the creation of the output
/// file is never reached.
pub proof fn lemma_encode_unknown_format(replies: Seq<Reply>, count: nat)
    requires
        encode_faithful(replies),
        count < replies.len(),
        encode_at(replies, count).step == EncodeStep::Output(OutputStep::GuessFormat),
        replies[count as int] == Reply::Empty,
    ensures
        count == 1,
        replies.len() == 2,
        encode_at(replies, 2).step == EncodeStep::Failed(ErrorKind::FormatGuessFailure),
        forall|k: nat|
            k <= replies.len() ==> (#[trigger] encode_at(replies, k)).step != EncodeStep::Output(
                OutputStep::CreateFile,
            ),
{
    reveal(encode_inv);
    lemma_encode_inv(replies, count);
    assert(encode_at(replies, 2) == encode_at(replies, 1).next(replies[1]));
    lemma_encode_ends_once(replies, 2);
    lemma_encode_inv(replies, 0);
    assert forall|k: nat| k <= replies.len() implies (#[trigger] encode_at(replies, k)).step
        != EncodeStep::Output(OutputStep::CreateFile) by {
        assert(k == 0 || k == 1 || k == 2);
    }
}

} // verus!
