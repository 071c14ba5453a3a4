//! Speech synthesis without a synthesizer behind it.

use crate::error::HalError;
use crate::hal::{Speech, SynthesizeResponse};
use crate::ids::{fresh_uuid, UUID_TEXT_LEN};
use vstd::prelude::*;
use vstd::string::*;

verus! {

/// A synthesizer that only names the file a real one would write.
pub struct StubSpeech {}

/// The audio file named after the identifier `uuid`.
pub open spec fn speech_file(uuid: Seq<char>) -> Seq<char> {
    "/tmp/speech_"@ + uuid + ".wav"@
}

impl StubSpeech {
    /// A synthesizer.
    pub fn new() -> (s: StubSpeech) {
        StubSpeech {  }
    }

    /// The answer to a request to render `text`, with the audio file named
    /// after `uuid`. Nothing is rendered.
    pub fn synthesize_with(&self, uuid: &str, text: &str) -> (r: SynthesizeResponse)
        ensures
            r.output_file@ == speech_file(uuid@),
            r.error is None,
    {
        let mut output_file = String::from_str("/tmp/speech_");
        output_file.append(uuid);
        output_file.append(".wav");
        SynthesizeResponse { output_file, error: None }
    }
}

impl Speech for StubSpeech {
    /// A request to render always ends well and names a file made of a
    /// fresh identifier.
    open spec fn synthesizes(
        &self,
        after: &Self,
        text: String,
        outcome: Result<SynthesizeResponse, HalError>,
    ) -> bool {
        &&& outcome is Ok
        &&& outcome->Ok_0.error is None
        &&& exists|uuid: Seq<char>|
            uuid.len() == UUID_TEXT_LEN && outcome->Ok_0.output_file@ == #[trigger] speech_file(
                uuid,
            )
    }

    /// Names a fresh audio file for `text`. Nothing is rendered.
    fn synthesize(&mut self, text: String) -> (r: Result<SynthesizeResponse, HalError>)
        ensures
            r is Ok,
            r->Ok_0.error is None,
            exists|uuid: Seq<char>|
                uuid.len() == UUID_TEXT_LEN && r->Ok_0.output_file@ == #[trigger] speech_file(uuid),
    {
        let uuid = fresh_uuid();
        let r = self.synthesize_with(uuid.as_str(), text.as_str());
        assert(r.output_file@ == speech_file(uuid@));
        Ok(r)
    }
}

} // verus!
