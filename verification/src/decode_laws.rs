use crate::adapter::{Adapter, AdapterCall, Phase};
use crate::decode::{decode_failure, DecodeEvent, DecodeSession, DecodeStep};
use crate::error::ErrorKind;
use crate::input::{first_video_stream, lemma_selected_stream, no_video_stream, InputStep};
use crate::reply::Reply;
use vstd::prelude::*;

verus! {

/// The decoding after the first `count` of `events` came in, each answering
/// the step that was pending then.
pub open spec fn decode_at(events: Seq<DecodeEvent>, count: nat) -> DecodeSession
    decreases count,
{
    if count == 0 {
        DecodeSession::start()
    } else {
        decode_at(events, (count - 1) as nat).next(events[count - 1])
    }
}

/// Whether every one of `events` is an event that the step it answers takes.
pub open spec fn decode_faithful(events: Seq<DecodeEvent>) -> bool {
    forall|k: nat|
        k < events.len() ==> (#[trigger] decode_at(events, k)).step.admits(events[k as int])
}

/// The call to the decoder that `step` stands for, if it is one.
pub open spec fn decoder_call(step: DecodeStep) -> Option<AdapterCall> {
    match step {
        DecodeStep::PushPacket => Some(AdapterCall::Push),
        DecodeStep::TakeFrame { .. } => Some(AdapterCall::Take),
        DecodeStep::FlushDecoder => Some(AdapterCall::Flush),
        _ => None,
    }
}

/// The plain reply that `event` carries; an event that carries a value
/// counts as `Done`.
pub open spec fn reply_of(event: DecodeEvent) -> Reply {
    match event {
        DecodeEvent::Reply(reply) => reply,
        _ => Reply::Done,
    }
}

/// What a decoding has done so far, as an onlooker would count it.
pub struct DecodeTally {
    /// The stream table that the container reported, once it did.
    pub kinds: Option<Seq<bool>>,
    /// How many packets the reader gave.
    pub packets_read: nat,
    /// How many of them were passed over as belonging to another stream.
    pub packets_skipped: nat,
    /// How many packets the decoder took.
    pub packets_pushed: nat,
    /// How many frames the decoder gave.
    pub frames_taken: nat,
    /// How many frames the frame callback was called with.
    pub frames_delivered: nat,
    /// The protocol state of the decoder.
    pub decoder: Adapter,
}

impl DecodeTally {
    /// The tally before anything was done.
    pub open spec fn start() -> DecodeTally {
        DecodeTally {
            kinds: None,
            packets_read: 0,
            packets_skipped: 0,
            packets_pushed: 0,
            frames_taken: 0,
            frames_delivered: 0,
            decoder: Adapter::fresh(),
        }
    }

    /// The tally after the pending step of `session` came back with `event`.
    pub open spec fn record(self, session: DecodeSession, event: DecodeEvent) -> DecodeTally {
        let step = session.step;
        let done = reply_of(event) == Reply::Done;
        DecodeTally {
            kinds: match event {
                DecodeEvent::Streams(kinds) => Some(kinds@),
                _ => self.kinds,
            },
            packets_read: self.packets_read + if event is Packet {
                1nat
            } else {
                0nat
            },
            packets_skipped: self.packets_skipped + if event matches DecodeEvent::Packet {
                stream_index,
            } && session.stream != Some(stream_index) {
                1nat
            } else {
                0nat
            },
            packets_pushed: self.packets_pushed + if step is PushPacket && done {
                1nat
            } else {
                0nat
            },
            frames_taken: self.frames_taken + if step is TakeFrame && done {
                1nat
            } else {
                0nat
            },
            frames_delivered: self.frames_delivered + if step is DeliverFrame && done {
                1nat
            } else {
                0nat
            },
            decoder: match decoder_call(step) {
                Some(call) => self.decoder.after(call, reply_of(event)),
                None => self.decoder,
            },
        }
    }
}

/// The tally of the first `count` calls of a decoding.
pub open spec fn decode_tally(events: Seq<DecodeEvent>, count: nat) -> DecodeTally
    decreases count,
{
    if count == 0 {
        DecodeTally::start()
    } else {
        let before = (count - 1) as nat;
        decode_tally(events, before).record(decode_at(events, before), events[before as int])
    }
}

/// The step that is pending after `count` calls that all went well, while
/// the stream to decode is not selected yet.
pub open spec fn probing_step(count: nat) -> DecodeStep {
    if count == 0 {
        DecodeStep::Input(InputStep::OpenFile)
    } else if count == 1 {
        DecodeStep::Input(InputStep::BuildDemuxer)
    } else if count == 2 {
        DecodeStep::Input(InputStep::FindStreamInfo)
    } else {
        DecodeStep::ListStreams
    }
}

/// Whether `step` lies after the selection of the stream to decode.
pub open spec fn past_selection(step: DecodeStep) -> bool {
    !(step is Input || step is ListStreams || step is Failed)
}

/// Whether `step` lies after the flush of the decoder.
pub open spec fn past_flush(step: DecodeStep) -> bool {
    match step {
        DecodeStep::TakeFrame { flushed } => flushed,
        DecodeStep::DeliverFrame { flushed } => flushed,
        DecodeStep::Succeeded => true,
        _ => false,
    }
}

/// What holds of a decoding that has not failed, after `count` calls.
#[verifier::opaque]
spec fn decode_inv(session: DecodeSession, tally: DecodeTally, count: nat) -> bool {
    let step = session.step;
    let decoder = tally.decoder;
    step is Failed || {
        &&& tally.packets_read == tally.packets_skipped + tally.packets_pushed
            + if step is PushPacket {
            1nat
        } else {
            0nat
        }
        &&& tally.frames_taken == tally.frames_delivered + if step is DeliverFrame {
            1nat
        } else {
            0nat
        }
        &&& !past_selection(step) ==> tally == DecodeTally::start() && count < 4 && step
            == probing_step(count) && session.stream.is_none()
        &&& past_selection(step) ==> count >= 4 && session.stream.is_some() && tally.kinds.is_some()
            && first_video_stream(tally.kinds.unwrap(), session.stream.unwrap() as int)
        &&& step matches DecodeStep::BuildDecoder { stream } ==> session.stream == Some(stream)
            && count == 4 && decoder == Adapter::fresh() && tally.packets_read == 0
            && tally.frames_taken == 0
        &&& (step is TakeFrame || step is DeliverFrame) ==> !decoder.drained
        &&& (step is ReadPacket || step is PushPacket || step is FlushDecoder || step is Succeeded)
            ==> decoder.drained
        &&& past_flush(step) <==> decoder.phase == Phase::Flushed
    }
}

proof fn lemma_decode_inv_step(
    session: DecodeSession,
    tally: DecodeTally,
    count: nat,
    event: DecodeEvent,
)
    requires
        decode_inv(session, tally, count),
        session.step.admits(event),
    ensures
        decode_inv(session.next(event), tally.record(session, event), count + 1),
{
    reveal(decode_inv);
    if let DecodeEvent::Streams(kinds) = event {
        assert(kinds@.len() == kinds.len());
        lemma_selected_stream(kinds@);
    }
}

proof fn lemma_decode_inv(events: Seq<DecodeEvent>, count: nat)
    requires
        decode_faithful(events),
        count <= events.len(),
    ensures
        decode_inv(decode_at(events, count), decode_tally(events, count), count),
    decreases count,
{
    if count == 0 {
        reveal(decode_inv);
    } else {
        let before = (count - 1) as nat;
        lemma_decode_inv(events, before);
        assert(decode_at(events, before).step.admits(events[before as int]));
        lemma_decode_inv_step(
            decode_at(events, before),
            decode_tally(events, before),
            before,
            events[before as int],
        );
    }
}

/// Once a decoding has succeeded or failed, no further call is made: the
/// frame callback is not called again, and the end is reached with the last
/// event.
pub proof fn lemma_decode_ends_once(events: Seq<DecodeEvent>, count: nat)
    requires
        decode_faithful(events),
        count <= events.len(),
        decode_at(events, count).closed(),
    ensures
        count == events.len(),
{
    if count < events.len() {
        assert(decode_at(events, count).step.admits(events[count as int]));
    }
}

/// A decoding never comes to rest inside the opening of its input: while it
/// is not over, its pending step is a call that takes some event. The inner
/// steps for the opened and the failed input stand for themselves in no run;
/// the decoding goes on to the stream table, or has failed.
pub proof fn lemma_decode_awaits_a_call(events: Seq<DecodeEvent>, count: nat)
    requires
        decode_faithful(events),
        count <= events.len(),
    ensures
        decode_at(events, count).closed() <==> forall|event: DecodeEvent|
            !decode_at(events, count).step.admits(event),
        decode_at(events, count).step matches DecodeStep::Input(inner) ==> !(inner is Opened)
            && !(inner is Failed),
{
    reveal(decode_inv);
    lemma_decode_inv(events, count);
    let step = decode_at(events, count).step;
    if !decode_at(events, count).closed() {
        let done = DecodeEvent::Reply(Reply::Done);
        let packet = DecodeEvent::Packet { stream_index: 0 };
        let table = DecodeEvent::Streams(arbitrary());
        assert(step.admits(done) || step.admits(packet) || step.admits(table));
    }
}

/// The frame callback is called exactly once for every frame that the
/// decoder gives, and the packets are all accounted for: as long as a
/// decoding has not failed, every frame pulled has been delivered, but for
/// the one that is about to be, and every packet read has been passed over
/// or pushed, but for the one that is about to be pushed.
pub proof fn lemma_decode_loses_nothing(events: Seq<DecodeEvent>, count: nat)
    requires
        decode_faithful(events),
        count <= events.len(),
        !(decode_at(events, count).step is Failed),
    ensures
        ({
            let step = decode_at(events, count).step;
            let tally = decode_tally(events, count);
            &&& tally.frames_taken == tally.frames_delivered + if step is DeliverFrame {
                1nat
            } else {
                0nat
            }
            &&& tally.packets_read == tally.packets_skipped + tally.packets_pushed
                + if step is PushPacket {
                1nat
            } else {
                0nat
            }
        }),
{
    reveal(decode_inv);
    lemma_decode_inv(events, count);
}

/// Frames reach the frame callback in the order in which the decoder gives
/// them: a frame is delivered by the very next call after it was pulled, and
/// the next frame is pulled only after that.
pub proof fn lemma_decode_delivers_in_order(events: Seq<DecodeEvent>, count: nat)
    requires
        decode_faithful(events),
        count <= events.len(),
        decode_at(events, count).step is DeliverFrame,
    ensures
        count >= 1,
        decode_at(events, (count - 1) as nat).step is TakeFrame,
        events[count - 1] == DecodeEvent::Reply(Reply::Done),
        count < events.len() ==> decode_at(events, count + 1).step is TakeFrame,
{
    reveal(decode_inv);
    lemma_decode_inv(events, count);
    let before = (count - 1) as nat;
    assert(decode_at(events, before).step.admits(events[before as int]));
    if count < events.len() {
        assert(decode_at(events, count).step.admits(events[count as int]));
        assert(decode_at(events, count + 1) == decode_at(events, count).next(events[count as int]));
    }
}

/// Before the decoder is built, the calls come in one fixed order: the file
/// is opened, the reader built, the streams probed and the stream table
/// reported; and each of them went well.
pub proof fn lemma_decode_opening(events: Seq<DecodeEvent>, count: nat, early: nat)
    requires
        decode_faithful(events),
        count <= events.len(),
        past_selection(decode_at(events, count).step),
        early < 4,
    ensures
        count >= 4,
        decode_at(events, early).step == probing_step(early),
        early < 3 ==> events[early as int] == DecodeEvent::Reply(Reply::Done),
        early == 3 ==> events[early as int] is Streams,
{
    reveal(decode_inv);
    lemma_decode_inv(events, count);
    lemma_decode_inv(events, early);
    lemma_decode_inv(events, early + 1);
    let here = decode_at(events, early);
    let there = decode_at(events, early + 1);
    assert(here.step.admits(events[early as int]));
    assert(there == here.next(events[early as int]));
    if here.step is Failed {
        lemma_decode_ends_once(events, early);
    }
    if there.step is Failed {
        lemma_decode_ends_once(events, early + 1);
    }
}

/// The decoder is built for the first video stream of the container, and
/// for no other.
pub proof fn lemma_decode_selects_first_video_stream(events: Seq<DecodeEvent>, count: nat)
    requires
        decode_faithful(events),
        count <= events.len(),
        decode_at(events, count).step is BuildDecoder,
    ensures
        count == 4,
        decode_at(events, 3).step == DecodeStep::ListStreams,
        events[3] is Streams,
        first_video_stream(
            events[3]->Streams_0@,
            decode_at(events, count).step->stream as int,
        ),
        decode_at(events, count).stream == Some(decode_at(events, count).step->stream),
{
    reveal(decode_inv);
    lemma_decode_inv(events, count);
    lemma_decode_inv(events, 3);
    assert(decode_at(events, 3).step.admits(events[3]));
    assert(decode_at(events, 4) == decode_at(events, 3).next(events[3]));
    if decode_at(events, 3).step is Failed {
        lemma_decode_ends_once(events, 3);
    }
    assert(events[3]->Streams_0@.len() == events[3]->Streams_0.len());
    lemma_selected_stream(events[3]->Streams_0@);
}

/// Only packets of the selected stream reach the decoder: a packet is pushed
/// right after it was read, and only where its stream index is that of the
/// selected stream; a packet of another stream is passed over.
pub proof fn lemma_decode_filters_packets(events: Seq<DecodeEvent>, count: nat)
    requires
        decode_faithful(events),
        count < events.len(),
        decode_at(events, count).step is ReadPacket,
        events[count as int] is Packet,
    ensures
        decode_at(events, count).stream.is_some(),
        decode_at(events, count + 1).stream == decode_at(events, count).stream,
        decode_at(events, count + 1).step == if decode_at(events, count).stream == Some(
            events[count as int]->stream_index,
        ) {
            DecodeStep::PushPacket
        } else {
            DecodeStep::ReadPacket
        },
{
    reveal(decode_inv);
    lemma_decode_inv(events, count);
    assert(decode_at(events, count).step.admits(events[count as int]));
    assert(decode_at(events, count + 1) == decode_at(events, count).next(events[count as int]));
}

/// The decoder is driven by its protocol: a packet is pushed, and the end
/// of the input signalled, only when the decoder has been drained and not
/// been flushed before.
pub proof fn lemma_decode_protocol(events: Seq<DecodeEvent>, count: nat)
    requires
        decode_faithful(events),
        count < events.len(),
    ensures
        decoder_call(decode_at(events, count).step) matches Some(call) ==> decode_tally(
            events,
            count,
        ).decoder.permits(call) && Adapter::answers(call, reply_of(events[count as int])),
{
    reveal(decode_inv);
    lemma_decode_inv(events, count);
    assert(decode_at(events, count).step.admits(events[count as int]));
}

/// A decoding that succeeded has called the frame callback once for every
/// frame that the decoder gave, and pushed every packet of the selected
/// stream; its decoder was flushed and drained, which was the last thing
/// done; and no call failed.
pub proof fn lemma_decode_success(events: Seq<DecodeEvent>)
    requires
        decode_faithful(events),
        decode_at(events, events.len()).step is Succeeded,
    ensures
        ({
            let tally = decode_tally(events, events.len());
            &&& tally.frames_delivered == tally.frames_taken
            &&& tally.packets_pushed + tally.packets_skipped == tally.packets_read
            &&& tally.decoder.exhausted()
        }),
        events.len() >= 1,
        decode_at(events, (events.len() - 1) as nat).step == (DecodeStep::TakeFrame {
            flushed: true,
        }),
        events.last() == DecodeEvent::Reply(Reply::Empty),
        forall|j: int|
            0 <= j < events.len() ==> #[trigger] events[j] != DecodeEvent::Reply(Reply::Failed),
{
    reveal(decode_inv);
    let count = events.len();
    lemma_decode_inv(events, count);
    let before = (count - 1) as nat;
    assert(decode_at(events, before).step.admits(events[before as int]));
    assert forall|j: int| 0 <= j < events.len() implies #[trigger] events[j]
        != DecodeEvent::Reply(Reply::Failed) by {
        if events[j] == DecodeEvent::Reply(Reply::Failed) {
            assert(decode_at(events, j as nat).step.admits(events[j]));
            assert(decode_at(events, (j + 1) as nat) == decode_at(events, j as nat).next(
                events[j],
            ));
            lemma_decode_ends_once(events, (j + 1) as nat);
        }
    }
}

/// Whether a decoding whose pending step is `step` ends with the error
/// `kind` when that step comes back with `event`.
pub open spec fn decode_fails_with(step: DecodeStep, event: DecodeEvent, kind: ErrorKind) -> bool {
    ||| event == DecodeEvent::Reply(Reply::Failed) && kind == decode_failure(step)
    ||| step == DecodeStep::ListStreams && (event matches DecodeEvent::Streams(kinds)
        && no_video_stream(kinds@)) && kind == ErrorKind::NoVideoStreamFound
}

/// A decoding fails only on its last call, with the error that belongs to
/// that call: the first error ends the decoding, and its kind tells which
/// call it was. No call before the last one had failed.
pub proof fn lemma_decode_first_failure(events: Seq<DecodeEvent>)
    requires
        decode_faithful(events),
        decode_at(events, events.len()).step is Failed,
    ensures
        events.len() >= 1,
        decode_fails_with(
            decode_at(events, (events.len() - 1) as nat).step,
            events.last(),
            decode_at(events, events.len()).step->Failed_0,
        ),
        forall|j: int|
            0 <= j < events.len() - 1 ==> #[trigger] events[j] != DecodeEvent::Reply(
                Reply::Failed,
            ),
{
    let count = events.len();
    let before = (count - 1) as nat;
    assert(decode_at(events, before).step.admits(events[before as int]));
    if let DecodeEvent::Streams(kinds) = events[before as int] {
        assert(kinds@.len() == kinds.len());
        lemma_selected_stream(kinds@);
    }
    assert forall|j: int| 0 <= j < events.len() - 1 implies #[trigger] events[j]
        != DecodeEvent::Reply(Reply::Failed) by {
        if events[j] == DecodeEvent::Reply(Reply::Failed) {
            assert(decode_at(events, j as nat).step.admits(events[j]));
            assert(decode_at(events, (j + 1) as nat) == decode_at(events, j as nat).next(
                events[j],
            ));
            lemma_decode_ends_once(events, (j + 1) as nat);
        }
    }
}

/// A container without a video stream fails the decoding with
/// `NoVideoStreamFound`, and the building of a decoder is never reached.
pub proof fn lemma_decode_without_video_stream(events: Seq<DecodeEvent>, count: nat)
    requires
        decode_faithful(events),
        count < events.len(),
        decode_at(events, count).step == DecodeStep::ListStreams,
        events[count as int] matches DecodeEvent::Streams(kinds) && no_video_stream(kinds@),
    ensures
        count == 3,
        events.len() == 4,
        decode_at(events, 4).step == DecodeStep::Failed(ErrorKind::NoVideoStreamFound),
        forall|k: nat|
            k <= events.len() ==> !((#[trigger] decode_at(events, k)).step is BuildDecoder),
{
    reveal(decode_inv);
    lemma_decode_inv(events, count);
    assert(events[3]->Streams_0@.len() == events[3]->Streams_0.len());
    lemma_selected_stream(events[3]->Streams_0@);
    assert(decode_at(events, 4) == decode_at(events, 3).next(events[3]));
    lemma_decode_ends_once(events, 4);
    assert forall|k: nat| k <= events.len() implies !((#[trigger] decode_at(events, k)).step
        is BuildDecoder) by {
        if decode_at(events, k).step is BuildDecoder {
            lemma_decode_selects_first_video_stream(events, k);
        }
    }
}

} // verus!
