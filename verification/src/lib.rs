//! Orchestration of a minimal video transcoding pipeline.
//!
//! The container reader and writer, the decoder and the encoder are outside
//! collaborators. This library holds what surrounds them: the order in which
//! they are called, the bookkeeping of stream indices and timestamps, and the
//! rule that the first error ends a pipeline.
//!
//! Each pipeline is a session. A session names the one outside call that is
//! to be made next, its pending step, and is advanced by what that call came
//! back with. A driver performs the step, reports the reply, and goes on
//! until the session is over. The modules `encode_laws` and `decode_laws`
//! state what holds of every run that a session can take.

pub mod adapter;
pub mod decode;
pub mod decode_laws;
pub mod encode;
pub mod encode_laws;
pub mod error;
pub mod input;
pub mod output;
pub mod reply;
pub mod time;

pub use adapter::{Adapter, AdapterCall, Phase};
pub use decode::{decode_video, DecodeEvent, DecodeSession, DecodeStep};
pub use encode::{encode_video, EncodeSession, EncodeStep};
pub use error::ErrorKind;
pub use input::{open_input, select_video_stream, InputSession, InputStep};
pub use output::{open_output, OutputSession, OutputStep};
pub use reply::{CallShape, Reply};
pub use time::{TimeBase, Timestamp};
