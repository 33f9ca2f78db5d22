use vida::adapter::{Adapter, AdapterCall};
use vida::encode::{
    encode_context, encode_failure_words, encode_video, encoder_config, failure_of,
    EncodeSession, EncodeStep, ENCODED_STREAMS, ENCODER_CODEC, VIDEO_STREAM_INDEX,
};
use vida::output::OutputStep;
use vida::time::{synthetic_frame_count, TimeBase, Timestamp};
use vida::{CallShape, ErrorKind, Reply};

/// A stand-in for the outside world of an encoding: a frame source of
/// `frames` frames, an encoder that holds back up to `lookahead` frames
/// before it gives packets, and a writer that records what it is given.
struct Stage {
    frames: usize,
    lookahead: usize,
    format_known: bool,
    fail_at: Option<usize>,
    calls: usize,
    given: usize,
    buffered: usize,
    ready: usize,
    flushed: bool,
    encoder: Adapter,
    stamps: Vec<Timestamp>,
    written: Vec<usize>,
    log: Vec<EncodeStep>,
}

impl Stage {
    fn new(frames: usize, lookahead: usize) -> Stage {
        Stage {
            frames,
            lookahead,
            format_known: true,
            fail_at: None,
            calls: 0,
            given: 0,
            buffered: 0,
            ready: 0,
            flushed: false,
            encoder: Adapter::new(),
            stamps: Vec::new(),
            written: Vec::new(),
            log: Vec::new(),
        }
    }

    fn perform(&mut self, step: EncodeStep) -> Reply {
        self.log.push(step);
        let call = self.calls;
        self.calls += 1;
        if self.fail_at == Some(call) {
            return Reply::Failed;
        }
        match step {
            EncodeStep::Output(OutputStep::GuessFormat) => {
                if self.format_known {
                    Reply::Done
                } else {
                    Reply::Empty
                }
            }
            EncodeStep::NextFrame => {
                if self.given < self.frames {
                    self.given += 1;
                    Reply::Done
                } else {
                    Reply::Empty
                }
            }
            EncodeStep::PushFrame { stamp } => {
                assert!(self.encoder.record(AdapterCall::Push, Reply::Done));
                self.stamps.push(stamp);
                self.buffered += 1;
                if self.buffered > self.lookahead {
                    self.buffered -= 1;
                    self.ready += 1;
                }
                Reply::Done
            }
            EncodeStep::FlushEncoder => {
                assert!(self.encoder.record(AdapterCall::Flush, Reply::Done));
                self.flushed = true;
                self.ready += self.buffered;
                self.buffered = 0;
                Reply::Done
            }
            EncodeStep::TakePacket { flushed } => {
                assert_eq!(flushed, self.flushed);
                let reply = if self.ready > 0 {
                    self.ready -= 1;
                    Reply::Done
                } else {
                    Reply::Empty
                };
                assert!(self.encoder.record(AdapterCall::Take, reply));
                reply
            }
            EncodeStep::WritePacket { stream_index, .. } => {
                assert!(stream_index < ENCODED_STREAMS);
                self.written.push(stream_index);
                Reply::Done
            }
            EncodeStep::Succeeded | EncodeStep::Failed(_) => unreachable!(),
            _ => Reply::Done,
        }
    }

    fn run(&mut self) -> EncodeSession {
        let mut session = EncodeSession::begin();
        let mut budget = 1_000_000;
        while !session.is_closed() {
            assert!(budget > 0);
            budget -= 1;
            let step = session.step;
            let reply = self.perform(step);
            assert!(step.call_shape().accepts(reply));
            session = encode_video(session, reply);
        }
        session
    }
}

fn count_of(log: &[EncodeStep], wanted: EncodeStep) -> usize {
    let mut count = 0;
    for step in log {
        if *step == wanted {
            count += 1;
        }
    }
    count
}

#[test]
fn encoding_begins_with_the_encoder() {
    let session = EncodeSession::begin();
    assert_eq!(session.step, EncodeStep::BuildEncoder);
    assert_eq!(session.frames, 0);
    assert!(!session.is_closed());
}

#[test]
fn encoding_no_frames_still_completes() {
    let mut stage = Stage::new(0, 3);
    let end = stage.run();
    assert_eq!(end.step, EncodeStep::Succeeded);
    assert_eq!(end.frames, 0);
    assert_eq!(
        stage.log,
        vec![
            EncodeStep::BuildEncoder,
            EncodeStep::Output(OutputStep::GuessFormat),
            EncodeStep::Output(OutputStep::CreateFile),
            EncodeStep::Output(OutputStep::AddStream { index: 0 }),
            EncodeStep::Output(OutputStep::BuildMuxer),
            EncodeStep::NextFrame,
            EncodeStep::FlushEncoder,
            EncodeStep::TakePacket { flushed: true },
            EncodeStep::FlushMuxer,
        ]
    );
    assert!(stage.stamps.is_empty());
    assert!(stage.written.is_empty());
    assert!(stage.encoder.is_exhausted());
}

#[test]
fn encoding_one_second_pushes_twenty_four_frames() {
    let frames = synthetic_frame_count(1).unwrap();
    assert_eq!(frames, 24);
    let config = encoder_config(64, 64);
    assert_eq!(config.width, 64);
    assert_eq!(config.height, 64);
    let mut stage = Stage::new(frames, 4);
    let end = stage.run();
    assert_eq!(end.step, EncodeStep::Succeeded);
    assert_eq!(end.frames, 24);
    assert_eq!(stage.stamps.len(), 24);
    for (position, stamp) in stage.stamps.iter().enumerate() {
        assert_eq!(stamp.value, position as i64);
        assert_eq!(stamp.base, TimeBase { num: 1, den: 25 });
    }
    assert_eq!(stage.written, vec![0; 24]);
    assert!(stage.encoder.is_exhausted());
}

#[test]
fn encoding_keeps_every_frame_and_packet() {
    for frames in [1usize, 2, 3, 7, 50] {
        for lookahead in [0usize, 1, 5, 100] {
            let mut stage = Stage::new(frames, lookahead);
            let end = stage.run();
            assert_eq!(end.step, EncodeStep::Succeeded);
            assert_eq!(end.frames, frames as u64);
            assert_eq!(stage.stamps.len(), frames);
            assert_eq!(stage.written.len(), frames);
            assert_eq!(stage.buffered, 0);
            assert_eq!(stage.ready, 0);
            assert_eq!(count_of(&stage.log, EncodeStep::FlushEncoder), 1);
            assert_eq!(count_of(&stage.log, EncodeStep::FlushMuxer), 1);
            assert_eq!(stage.log.last(), Some(&EncodeStep::FlushMuxer));
        }
    }
}

#[test]
fn encoding_stamps_frames_with_their_position() {
    let mut stage = Stage::new(5, 2);
    stage.run();
    let values: Vec<i64> = stage.stamps.iter().map(|stamp| stamp.value).collect();
    assert_eq!(values, vec![0, 1, 2, 3, 4]);
}

#[test]
fn encoding_drains_after_each_push() {
    let mut stage = Stage::new(3, 0);
    stage.run();
    let stamp = |value: i64| Timestamp { value, base: TimeBase { num: 1, den: 25 } };
    let tail: Vec<EncodeStep> = stage.log[5..].to_vec();
    assert_eq!(
        tail,
        vec![
            EncodeStep::NextFrame,
            EncodeStep::PushFrame { stamp: stamp(0) },
            EncodeStep::TakePacket { flushed: false },
            EncodeStep::WritePacket { stream_index: 0, flushed: false },
            EncodeStep::TakePacket { flushed: false },
            EncodeStep::NextFrame,
            EncodeStep::PushFrame { stamp: stamp(1) },
            EncodeStep::TakePacket { flushed: false },
            EncodeStep::WritePacket { stream_index: 0, flushed: false },
            EncodeStep::TakePacket { flushed: false },
            EncodeStep::NextFrame,
            EncodeStep::PushFrame { stamp: stamp(2) },
            EncodeStep::TakePacket { flushed: false },
            EncodeStep::WritePacket { stream_index: 0, flushed: false },
            EncodeStep::TakePacket { flushed: false },
            EncodeStep::NextFrame,
            EncodeStep::FlushEncoder,
            EncodeStep::TakePacket { flushed: true },
            EncodeStep::FlushMuxer,
        ]
    );
}

#[test]
fn encoding_drains_the_lookahead_after_the_flush() {
    let mut stage = Stage::new(2, 8);
    stage.run();
    let tail: Vec<EncodeStep> = stage.log[stage.log.len() - 7..].to_vec();
    assert_eq!(
        tail,
        vec![
            EncodeStep::FlushEncoder,
            EncodeStep::TakePacket { flushed: true },
            EncodeStep::WritePacket { stream_index: 0, flushed: true },
            EncodeStep::TakePacket { flushed: true },
            EncodeStep::WritePacket { stream_index: 0, flushed: true },
            EncodeStep::TakePacket { flushed: true },
            EncodeStep::FlushMuxer,
        ]
    );
}

#[test]
fn encoding_unknown_format_creates_no_file() {
    let mut stage = Stage::new(3, 1);
    stage.format_known = false;
    let end = stage.run();
    assert_eq!(end.step, EncodeStep::Failed(ErrorKind::FormatGuessFailure));
    assert_eq!(
        stage.log,
        vec![EncodeStep::BuildEncoder, EncodeStep::Output(OutputStep::GuessFormat)]
    );
    assert_eq!(count_of(&stage.log, EncodeStep::Output(OutputStep::CreateFile)), 0);
}

#[test]
fn encoding_first_failure_ends_it() {
    let expected = [
        ErrorKind::CodecConfigFailure,
        ErrorKind::FormatGuessFailure,
        ErrorKind::IoFailure,
        ErrorKind::MuxFailure,
        ErrorKind::MuxFailure,
        ErrorKind::CodecProcessingFailure,
        ErrorKind::CodecProcessingFailure,
        ErrorKind::CodecProcessingFailure,
        ErrorKind::MuxFailure,
    ];
    for (call, kind) in expected.iter().enumerate() {
        if call == 1 || call == 5 {
            continue;
        }
        let mut stage = Stage::new(1, 0);
        stage.fail_at = Some(call);
        let end = stage.run();
        assert_eq!(end.step, EncodeStep::Failed(*kind));
        assert_eq!(stage.log.len(), call + 1);
    }
}

#[test]
fn encoding_failure_of_the_last_flush_is_a_mux_failure() {
    let mut stage = Stage::new(0, 0);
    stage.fail_at = Some(8);
    let end = stage.run();
    assert_eq!(stage.log.last(), Some(&EncodeStep::FlushMuxer));
    assert_eq!(end.step, EncodeStep::Failed(ErrorKind::MuxFailure));
}

#[test]
fn encoding_failure_kinds_by_step() {
    let stamp = Timestamp { value: 0, base: TimeBase { num: 1, den: 25 } };
    assert_eq!(failure_of(EncodeStep::BuildEncoder), ErrorKind::CodecConfigFailure);
    assert_eq!(
        failure_of(EncodeStep::Output(OutputStep::GuessFormat)),
        ErrorKind::FormatGuessFailure
    );
    assert_eq!(failure_of(EncodeStep::Output(OutputStep::CreateFile)), ErrorKind::IoFailure);
    assert_eq!(
        failure_of(EncodeStep::Output(OutputStep::AddStream { index: 0 })),
        ErrorKind::MuxFailure
    );
    assert_eq!(failure_of(EncodeStep::Output(OutputStep::BuildMuxer)), ErrorKind::MuxFailure);
    assert_eq!(failure_of(EncodeStep::PushFrame { stamp }), ErrorKind::CodecProcessingFailure);
    assert_eq!(
        failure_of(EncodeStep::TakePacket { flushed: false }),
        ErrorKind::CodecProcessingFailure
    );
    assert_eq!(failure_of(EncodeStep::FlushEncoder), ErrorKind::CodecProcessingFailure);
    assert_eq!(
        failure_of(EncodeStep::WritePacket { stream_index: 0, flushed: true }),
        ErrorKind::MuxFailure
    );
    assert_eq!(failure_of(EncodeStep::FlushMuxer), ErrorKind::MuxFailure);
}

#[test]
fn encoding_ignores_a_reply_that_does_not_fit() {
    let begun = EncodeSession::begin();
    assert_eq!(encode_video(begun, Reply::Empty), begun);
    let asking = EncodeSession { step: EncodeStep::NextFrame, frames: 3 };
    assert_eq!(encode_video(asking, Reply::Failed), asking);
    let guessing = EncodeSession { step: EncodeStep::Output(OutputStep::GuessFormat), frames: 0 };
    assert_eq!(encode_video(guessing, Reply::Failed), guessing);
    let done = EncodeSession { step: EncodeStep::Succeeded, frames: 3 };
    for reply in [Reply::Done, Reply::Empty, Reply::Failed] {
        assert_eq!(encode_video(done, reply), done);
    }
    let failed = EncodeSession { step: EncodeStep::Failed(ErrorKind::MuxFailure), frames: 3 };
    for reply in [Reply::Done, Reply::Empty, Reply::Failed] {
        assert_eq!(encode_video(failed, reply), failed);
    }
}

#[test]
fn encoding_step_shapes() {
    assert_eq!(EncodeStep::BuildEncoder.call_shape(), CallShape::Fallible);
    assert_eq!(EncodeStep::Output(OutputStep::GuessFormat).call_shape(), CallShape::Optional);
    assert_eq!(EncodeStep::NextFrame.call_shape(), CallShape::Optional);
    assert_eq!(
        EncodeStep::TakePacket { flushed: false }.call_shape(),
        CallShape::FallibleOptional
    );
    assert_eq!(EncodeStep::FlushMuxer.call_shape(), CallShape::Fallible);
    assert_eq!(EncodeStep::Succeeded.call_shape(), CallShape::Closed);
    assert_eq!(EncodeStep::Failed(ErrorKind::IoFailure).call_shape(), CallShape::Closed);
}

#[test]
fn encoding_stops_where_timestamps_end() {
    let last = EncodeSession { step: EncodeStep::NextFrame, frames: i64::MAX as u64 };
    let pushed = encode_video(last, Reply::Done);
    assert_eq!(
        pushed.step,
        EncodeStep::PushFrame {
            stamp: Timestamp { value: i64::MAX, base: TimeBase { num: 1, den: 25 } }
        }
    );
    assert_eq!(pushed.frames, i64::MAX as u64 + 1);
    let beyond = EncodeSession { step: EncodeStep::NextFrame, frames: i64::MAX as u64 + 1 };
    let failed = encode_video(beyond, Reply::Done);
    assert_eq!(failed.step, EncodeStep::Failed(ErrorKind::CodecProcessingFailure));
    assert_eq!(failed.frames, i64::MAX as u64 + 1);
    let ended = encode_video(beyond, Reply::Empty);
    assert_eq!(ended.step, EncodeStep::FlushEncoder);
}

#[test]
fn encoder_configuration_is_fixed_but_for_the_dimensions() {
    let config = encoder_config(640, 480);
    assert_eq!(config.codec, "libx265");
    assert_eq!(config.codec, ENCODER_CODEC);
    assert_eq!(config.width, 640);
    assert_eq!(config.height, 480);
    assert_eq!(config.time_base, TimeBase { num: 1, den: 25 });
    assert_eq!(ENCODED_STREAMS, 1);
    assert_eq!(VIDEO_STREAM_INDEX, 0);
    let largest = encoder_config(u32::MAX, 0);
    assert_eq!(largest.width, u32::MAX as usize);
    assert_eq!(largest.height, 0);
}

#[test]
fn encoding_failure_texts() {
    let stamp = Timestamp { value: 0, base: TimeBase { num: 1, den: 25 } };
    let expected = [
        (EncodeStep::BuildEncoder, "Failed to create video encoder for output file out.mp4"),
        (
            EncodeStep::Output(OutputStep::GuessFormat),
            "unable to guess output format for file: out.mp4",
        ),
        (EncodeStep::Output(OutputStep::CreateFile), "unable to create output file out.mp4"),
        (
            EncodeStep::Output(OutputStep::AddStream { index: 0 }),
            "unable to add stream to output file out.mp4",
        ),
        (
            EncodeStep::Output(OutputStep::BuildMuxer),
            "unable to build muxer for output file out.mp4",
        ),
        (EncodeStep::NextFrame, "unable to stamp frame for output file out.mp4"),
        (
            EncodeStep::PushFrame { stamp },
            "unable to push frame to encoder for output file out.mp4",
        ),
        (
            EncodeStep::TakePacket { flushed: false },
            "unable to take packet from encoder for output file out.mp4",
        ),
        (
            EncodeStep::WritePacket { stream_index: 0, flushed: true },
            "unable to write packet to output file out.mp4",
        ),
        (EncodeStep::FlushEncoder, "unable to flush encoder for output file out.mp4"),
        (EncodeStep::FlushMuxer, "unable to flush output file out.mp4"),
    ];
    for (step, words) in expected {
        assert_eq!(encode_context(step, "out.mp4"), Some(words.to_string()));
    }
    assert_eq!(encode_context(EncodeStep::Succeeded, "out.mp4"), None);
    assert_eq!(encode_context(EncodeStep::Failed(ErrorKind::MuxFailure), "out.mp4"), None);
    assert_eq!(encode_context(EncodeStep::Output(OutputStep::Opened), "out.mp4"), None);
}

#[test]
fn encoding_failures_have_words_and_nothing_else_has() {
    let path = "videos/out.mp4";
    let stamp = Timestamp { value: 3, base: TimeBase { num: 1, den: 25 } };
    let steps = [
        EncodeStep::BuildEncoder,
        EncodeStep::Output(OutputStep::GuessFormat),
        EncodeStep::Output(OutputStep::CreateFile),
        EncodeStep::Output(OutputStep::AddStream { index: 0 }),
        EncodeStep::Output(OutputStep::BuildMuxer),
        EncodeStep::Output(OutputStep::Opened),
        EncodeStep::Output(OutputStep::Failed(ErrorKind::IoFailure)),
        EncodeStep::NextFrame,
        EncodeStep::PushFrame { stamp },
        EncodeStep::TakePacket { flushed: false },
        EncodeStep::TakePacket { flushed: true },
        EncodeStep::WritePacket { stream_index: 0, flushed: false },
        EncodeStep::FlushEncoder,
        EncodeStep::FlushMuxer,
        EncodeStep::Succeeded,
        EncodeStep::Failed(ErrorKind::MuxFailure),
    ];
    for step in steps {
        for frames in [0u64, 4, i64::MAX as u64, i64::MAX as u64 + 1] {
            let session = EncodeSession { step, frames };
            for reply in [Reply::Done, Reply::Empty, Reply::Failed] {
                let after = encode_video(session, reply);
                let fails = !matches!(step, EncodeStep::Failed(_))
                    && matches!(after.step, EncodeStep::Failed(_));
                let words = encode_failure_words(session, reply, path);
                assert_eq!(words.is_some(), fails);
                if let Some(words) = words {
                    assert!(words.ends_with(path));
                    assert_eq!(Some(words), encode_context(step, path));
                }
            }
        }
    }
}

#[test]
fn encoding_failure_words_by_reply() {
    let begun = EncodeSession::begin();
    assert_eq!(
        encode_failure_words(begun, Reply::Failed, "o.mp4"),
        Some("Failed to create video encoder for output file o.mp4".to_string())
    );
    assert_eq!(encode_failure_words(begun, Reply::Done, "o.mp4"), None);
    assert_eq!(encode_failure_words(begun, Reply::Empty, "o.mp4"), None);
    let guessing = EncodeSession { step: EncodeStep::Output(OutputStep::GuessFormat), frames: 0 };
    assert_eq!(
        encode_failure_words(guessing, Reply::Empty, "o.zzz"),
        Some("unable to guess output format for file: o.zzz".to_string())
    );
    assert_eq!(encode_failure_words(guessing, Reply::Done, "o.zzz"), None);
    let beyond = EncodeSession { step: EncodeStep::NextFrame, frames: i64::MAX as u64 + 1 };
    assert_eq!(
        encode_failure_words(beyond, Reply::Done, "o.mp4"),
        Some("unable to stamp frame for output file o.mp4".to_string())
    );
    assert_eq!(encode_failure_words(beyond, Reply::Empty, "o.mp4"), None);
    let asking = EncodeSession { step: EncodeStep::NextFrame, frames: 2 };
    assert_eq!(encode_failure_words(asking, Reply::Done, "o.mp4"), None);
    let flushing = EncodeSession { step: EncodeStep::FlushMuxer, frames: 2 };
    assert_eq!(
        encode_failure_words(flushing, Reply::Failed, "o.mp4"),
        Some("unable to flush output file o.mp4".to_string())
    );
}

#[test]
fn encoding_is_over_only_when_succeeded_or_failed() {
    assert!(EncodeSession { step: EncodeStep::Succeeded, frames: 0 }.is_closed());
    assert!(EncodeSession { step: EncodeStep::Failed(ErrorKind::IoFailure), frames: 0 }.is_closed());
    assert!(!EncodeSession { step: EncodeStep::Output(OutputStep::Opened), frames: 0 }.is_closed());
    assert!(!EncodeSession {
        step: EncodeStep::Output(OutputStep::Failed(ErrorKind::IoFailure)),
        frames: 0
    }
    .is_closed());
    assert!(!EncodeSession { step: EncodeStep::FlushMuxer, frames: 0 }.is_closed());
}

#[test]
fn encoding_twice_makes_the_same_calls() {
    let mut first = Stage::new(9, 2);
    let mut second = Stage::new(9, 2);
    let one = first.run();
    let two = second.run();
    assert_eq!(one, two);
    assert_eq!(first.log, second.log);
    assert_eq!(first.stamps, second.stamps);
    assert_eq!(first.written, second.written);
}
