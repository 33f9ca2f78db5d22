use vstd::prelude::*;
use vstd::string::StringExecFns;

verus! {

/// Why a pipeline did not complete. Every error is final: the first one ends
/// the pipeline.
#[derive(Clone, Copy, Debug, PartialEq, Eq, Structural)]
pub enum ErrorKind {
    /// A file could not be opened or created.
    IoFailure,
    /// No container format could be inferred from the output path.
    FormatGuessFailure,
    /// The input container is malformed or its streams could not be probed.
    DemuxFailure,
    /// An encoder or decoder rejected its configuration.
    CodecConfigFailure,
    /// An encoder or decoder failed on push, take or flush.
    CodecProcessingFailure,
    /// The container writer rejected a stream declaration or a packet.
    MuxFailure,
    /// The input holds no video stream.
    NoVideoStreamFound,
}

/// The words that go with a failure: what was attempted, followed by the
/// path of the file it was attempted for.
pub open spec fn operation_text(operation: Seq<char>, path: Seq<char>) -> Seq<char> {
    operation + path
}

/// Whether `text` ends with `tail`.
pub open spec fn ends_with(text: Seq<char>, tail: Seq<char>) -> bool {
    tail.len() <= text.len() && text.subrange(text.len() - tail.len(), text.len() as int) == tail
}

/// The words of a failure end with the path.
pub proof fn lemma_operation_text_holds_path(operation: Seq<char>, path: Seq<char>)
    ensures
        ends_with(operation_text(operation, path), path),
{
    let text = operation_text(operation, path);
    assert(text.subrange(text.len() - path.len(), text.len() as int) =~= path);
}

/// The words that go with a failure: what was attempted, followed by the
/// path of the file it was attempted for.
pub fn operation_words(operation: &str, path: &str) -> (words: String)
    ensures
        words@ == operation_text(operation@, path@),
{
    String::from_str(operation).concat(path)
}

} // verus!
