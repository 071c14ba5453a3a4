//! The request adapter for speech.

use crate::error::{is_failure_of, replied, reply, HalError, Status, StatusCode, StatusView};
use crate::hal::{Speech, SynthesizeResponse};
use vstd::prelude::*;

verus! {

/// The answer to a request to transcribe audio.
#[derive(Debug)]
pub struct TranscribeResponse {
    pub text: String,
}

/// Serves speech requests from one backend.
pub struct SpeechServiceImpl<S: Speech> {
    speech: S,
}

impl<S: Speech> SpeechServiceImpl<S> {
    /// An adapter in front of `speech`.
    pub fn new(speech: S) -> (s: Self)
        ensures
            s.backend() == speech,
    {
        SpeechServiceImpl { speech }
    }

    /// The backend behind this adapter.
    pub closed spec fn backend(&self) -> S {
        self.speech
    }

    /// Renders `text` as audio: the backend is asked once, with `text` as
    /// given, and its answer is the answer of the request, a failure as its
    /// client-visible status.
    pub fn synthesize(&mut self, text: String) -> (r: Result<SynthesizeResponse, Status>)
        ensures
            exists|outcome: Result<SynthesizeResponse, HalError>|
                #[trigger] old(self).backend().synthesizes(&final(self).backend(), text, outcome)
                    && replied("Failed to synthesize text"@, outcome, r),
            r is Err ==> is_failure_of(r->Err_0@, "Failed to synthesize text"@),
    {
        let outcome = self.speech.synthesize(text);
        let ghost asked = outcome;
        let r = reply("Failed to synthesize text", outcome);
        assert(old(self).backend().synthesizes(&self.backend(), text, asked));
        r
    }

    /// Transcription is not offered.
    pub fn transcribe(&self, audio: &Vec<u8>) -> (r: Result<TranscribeResponse, Status>)
        ensures
            r is Err,
            r->Err_0@ == (StatusView {
                code: StatusCode::Unimplemented,
                message: "Transcribe not implemented"@,
            }),
    {
        Err(Status::unimplemented("Transcribe not implemented"))
    }
}

} // verus!
