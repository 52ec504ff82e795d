//! The transcription bridge: what is checked before a speech-to-text
//! engine is run, and what is made of the segments it returns.

use crate::text::{join, spec_join};
use crate::text::texts;
use vstd::prelude::*;
use vstd::string::*;

verus! {

/// Why a transcription failed.
#[derive(Debug, PartialEq, Eq)]
pub enum TranscribeError {
    /// There was nothing to transcribe.
    NoSamples,
    /// The engine could not load its model or could not decode.
    Engine(String),
}

/// [`TranscribeError`] over character sequences.
pub enum TranscribeErrorModel {
    NoSamples,
    Engine(Seq<char>),
}

impl View for TranscribeError {
    type V = TranscribeErrorModel;

    open spec fn view(&self) -> TranscribeErrorModel {
        match self {
            TranscribeError::NoSamples => TranscribeErrorModel::NoSamples,
            TranscribeError::Engine(e) => TranscribeErrorModel::Engine(e@),
        }
    }
}

/// What is shown for a recording without samples.
pub open spec fn no_samples_text() -> Seq<char> {
    "no samples to transcribe"@
}

impl TranscribeErrorModel {
    /// The text that is shown for the error.
    pub open spec fn message(self) -> Seq<char> {
        match self {
            TranscribeErrorModel::NoSamples => no_samples_text(),
            TranscribeErrorModel::Engine(e) => e,
        }
    }
}

impl TranscribeError {
    /// The text that is shown for the error.
    pub fn message(&self) -> (r: String)
        ensures
            r@ == self@.message(),
    {
        match self {
            TranscribeError::NoSamples => String::from_str("no samples to transcribe"),
            TranscribeError::Engine(e) => e.clone(),
        }
    }
}

/// The transcript: the segments in the order the engine gave them, with nothing put between them.
pub open spec fn spec_transcript(segments: Seq<Seq<char>>) -> Seq<char> {
    spec_join(segments, Seq::empty())
}

/// The result of a transcription of `sample_count` samples, for which the
/// engine, if it was run, returned `engine`. A recording without samples is
/// an error whatever the engine said; a failure of the engine is passed on
/// whole; otherwise the result is the transcript of the segments.
pub open spec fn spec_finish(
    sample_count: nat,
    engine: Result<Seq<Seq<char>>, Seq<char>>,
) -> Result<Seq<char>, TranscribeErrorModel> {
    if sample_count == 0 {
        Err(TranscribeErrorModel::NoSamples)
    } else {
        match engine {
            Ok(segments) => Ok(spec_transcript(segments)),
            Err(e) => Err(TranscribeErrorModel::Engine(e)),
        }
    }
}

/// The view of what an engine returned.
pub open spec fn engine_text(engine: Result<Vec<String>, String>) -> Result<
    Seq<Seq<char>>,
    Seq<char>,
> {
    match engine {
        Ok(segments) => Ok(texts(segments@)),
        Err(e) => Err(e@),
    }
}

/// The view of the result of a transcription.
pub open spec fn result_text(r: Result<String, TranscribeError>) -> Result<
    Seq<char>,
    TranscribeErrorModel,
> {
    match r {
        Ok(text) => Ok(text@),
        Err(e) => Err(e@),
    }
}

/// Says whether a recording of `sample_count` samples can be handed to
/// the engine: an empty one is refused.
pub fn check_samples(sample_count: usize) -> (r: Result<(), TranscribeError>)
    ensures
        sample_count == 0 <==> r is Err,
        r matches Err(e) ==> e == TranscribeError::NoSamples,
{
    if sample_count == 0 {
        Err(TranscribeError::NoSamples)
    } else {
        Ok(())
    }
}

/// Writes the segments one after another, with nothing between them.
pub fn transcript(segments: &Vec<String>) -> (r: String)
    ensures
        r@ == spec_transcript(texts(segments@)),
{
    proof {
        reveal_strlit("");
        assert(""@ =~= Seq::<char>::empty());
    }
    join(segments, "")
}

/// Makes the result of a transcription of `sample_count` samples out of
/// what the engine returned.
pub fn finish(sample_count: usize, engine: Result<Vec<String>, String>) -> (r: Result<
    String,
    TranscribeError,
>)
    ensures
        result_text(r) == spec_finish(sample_count as nat, engine_text(engine)),
{
    if sample_count == 0 {
        return Err(TranscribeError::NoSamples);
    }
    match engine {
        Ok(segments) => Ok(transcript(&segments)),
        Err(message) => Err(TranscribeError::Engine(message)),
    }
}

/// A recording without samples never yields a transcript.
pub proof fn law_empty_recording_is_an_error(engine: Result<Seq<Seq<char>>, Seq<char>>)
    ensures
        spec_finish(0, engine) == Err::<Seq<char>, TranscribeErrorModel>(
            TranscribeErrorModel::NoSamples,
        ),
{
}

/// The transcript of no segments is empty, and one more segment is appended as it is.
pub proof fn law_transcript_appends(segments: Seq<Seq<char>>, last: Seq<char>)
    ensures
        spec_transcript(Seq::empty()) == Seq::<char>::empty(),
        spec_transcript(segments.push(last)) == spec_transcript(segments) + last,
{
    assert(segments.push(last).drop_last() =~= segments);
}

} // verus!
