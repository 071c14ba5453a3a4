//! The request adapter for audio.
//!
//! Playback arrives as a stream of messages, the first of which must carry
//! the format; recording leaves as a stream of chunks.

use crate::error::{
    is_failure_of, replied, reply, Error, HalError, Status, StatusCode, StatusView,
};
use crate::hal::{ActionResponse, AudioConfig, GetAudioInfoResponse, Sound};
use vstd::prelude::*;

verus! {

/// Number of chunks a playback may hold unplayed.
pub const PLAYBACK_QUEUE: usize = 32;

/// One message of a playback stream.
#[derive(Debug)]
pub struct PlayAudioRequest {
    /// The format; owed by the first message of a stream.
    pub config: Option<AudioConfig>,
    pub audio_data: Vec<u8>,
}

/// A request to record audio.
#[derive(Clone, Copy, Debug)]
pub struct RecordAudioRequest {
    pub config: Option<AudioConfig>,
    pub duration_ms: u32,
}

/// One message of a recording stream.
#[derive(Debug)]
pub struct RecordAudioResponse {
    pub audio_data: Vec<u8>,
    pub error: Option<Error>,
}

/// The status for a playback stream that ends before its first message.
pub open spec fn empty_stream() -> StatusView {
    StatusView { code: StatusCode::InvalidArgument, message: "Empty audio stream"@ }
}

/// The status for a playback stream whose first message has no format.
pub open spec fn no_configuration() -> StatusView {
    StatusView {
        code: StatusCode::InvalidArgument,
        message: "First message must contain audio configuration"@,
    }
}

/// The status for a recording request without a format.
pub open spec fn configuration_required() -> StatusView {
    StatusView { code: StatusCode::InvalidArgument, message: "Audio configuration is required"@ }
}

/// The format a playback stream opens with, told from its first message.
pub open spec fn opening_format(first: Option<Option<AudioConfig>>) -> Result<
    AudioConfig,
    StatusView,
> {
    match first {
        None => Err(empty_stream()),
        Some(None) => Err(no_configuration()),
        Some(Some(config)) => Ok(config),
    }
}

/// The format a playback stream opens with, told from the format of its
/// first message; `None` stands for a stream that ended before it.
pub fn playback_format(first: Option<Option<AudioConfig>>) -> (r: Result<AudioConfig, Status>)
    ensures
        match opening_format(first) {
            Ok(config) => r == Ok::<AudioConfig, Status>(config),
            Err(status) => r is Err && r->Err_0@ == status,
        },
{
    match first {
        None => Err(Status::invalid_argument("Empty audio stream")),
        Some(None) => Err(
            Status::invalid_argument("First message must contain audio configuration"),
        ),
        Some(Some(config)) => Ok(config),
    }
}

/// Whether `message` is what the recording stream carries for `chunk`: a
/// message with the chunk and no failure, or the end of the stream where the
/// chunks have ended.
pub open spec fn recorded(chunk: Option<Vec<u8>>, message: Option<RecordAudioResponse>) -> bool {
    match chunk {
        Some(audio_data) => message is Some && message->0.audio_data == audio_data
            && message->0.error is None,
        None => message is None,
    }
}

/// The message that carries one recorded chunk.
pub fn recorded_chunk(audio_data: Vec<u8>) -> (r: RecordAudioResponse)
    ensures
        r.audio_data == audio_data,
        r.error is None,
{
    RecordAudioResponse { audio_data, error: None }
}

/// Serves audio requests from one backend.
pub struct SoundServiceImpl<S: Sound> {
    sound: S,
}

impl<S: Sound> SoundServiceImpl<S> {
    /// An adapter in front of `sound`.
    pub fn new(sound: S) -> (s: Self)
        ensures
            s.backend() == sound,
    {
        SoundServiceImpl { sound }
    }

    /// The backend behind this adapter.
    pub closed spec fn backend(&self) -> S {
        self.sound
    }

    /// Reads what the audio hardware can do: the backend is asked once,
    /// and its answer is the answer of the request, a failure as its
    /// client-visible status.
    pub fn get_audio_info(&mut self) -> (r: Result<GetAudioInfoResponse, Status>)
        ensures
            exists|outcome: Result<GetAudioInfoResponse, HalError>|
                #[trigger] old(self).backend().gets_audio_info(&final(self).backend(), outcome)
                    && replied("Failed to get audio info"@, outcome, r),
            r is Err ==> is_failure_of(r->Err_0@, "Failed to get audio info"@),
    {
        let outcome = self.sound.get_audio_info();
        let ghost asked = outcome;
        let r = reply("Failed to get audio info", outcome);
        assert(old(self).backend().gets_audio_info(&self.backend(), asked));
        r
    }

    /// Opens a playback from the first message of its stream. A stream
    /// without a first message, or whose first message has no format, is
    /// refused before the backend is asked.
    pub fn play_audio(&mut self, first: Option<PlayAudioRequest>) -> (r: Result<
        ActionResponse,
        Status,
    >)
        ensures
            first is None ==> r is Err && r->Err_0@ == empty_stream() && final(self).backend()
                == old(self).backend(),
            first is Some && first->0.config is None ==> r is Err && r->Err_0@
                == no_configuration() && final(self).backend() == old(self).backend(),
            first is Some && first->0.config is Some && r is Err ==> is_failure_of(
                r->Err_0@,
                "Failed to play audio"@,
            ),
            first is Some && first->0.config is Some ==> exists|
                outcome: Result<ActionResponse, HalError>,
            |
                #[trigger] old(self).backend().plays_audio(
                    &final(self).backend(),
                    first->0.config->0,
                    outcome,
                ) && replied("Failed to play audio"@, outcome, r),
    {
        let format = match first {
            None => None,
            Some(message) => Some(message.config),
        };
        let config = match playback_format(format) {
            Ok(config) => config,
            Err(status) => {
                return Err(status);
            },
        };
        let outcome = self.sound.play_audio(config);
        let ghost asked = outcome;
        let r = reply("Failed to play audio", outcome);
        assert(old(self).backend().plays_audio(&self.backend(), config, asked));
        r
    }

    /// Passes one further message of a playback stream to the backend: the
    /// backend is asked once to play the audio data of the message, and its
    /// answer is the answer of the request, a failure as its client-visible
    /// status.
    pub fn play_chunk(&mut self, message: PlayAudioRequest) -> (r: Result<(), Status>)
        ensures
            exists|outcome: Result<(), HalError>|
                #[trigger] old(self).backend().plays_chunk(
                    &final(self).backend(),
                    message.audio_data,
                    outcome,
                ) && replied("Failed to send audio data"@, outcome, r),
            r is Err ==> is_failure_of(r->Err_0@, "Failed to send audio data"@),
    {
        let outcome = self.sound.play_chunk(message.audio_data);
        let ghost asked = outcome;
        let r = reply("Failed to send audio data", outcome);
        assert(old(self).backend().plays_chunk(&self.backend(), message.audio_data, asked));
        r
    }

    /// Opens a recording. A request without a format is refused before the
    /// backend is asked.
    pub fn record_audio(&mut self, request: RecordAudioRequest) -> (r: Result<(), Status>)
        ensures
            request.config is None ==> r is Err && r->Err_0@ == configuration_required()
                && final(self).backend() == old(self).backend(),
            request.config is Some && r is Err ==> is_failure_of(
                r->Err_0@,
                "Failed to record audio"@,
            ),
            request.config is Some ==> exists|outcome: Result<(), HalError>|
                #[trigger] old(self).backend().records_audio(
                    &final(self).backend(),
                    request.config->0,
                    request.duration_ms,
                    outcome,
                ) && replied("Failed to record audio"@, outcome, r),
    {
        let config = match request.config {
            Some(config) => config,
            None => {
                return Err(Status::invalid_argument("Audio configuration is required"));
            },
        };
        let outcome = self.sound.record_audio(config, request.duration_ms);
        let ghost asked = outcome;
        let r = reply("Failed to record audio", outcome);
        assert(old(self).backend().records_audio(
            &self.backend(),
            config,
            request.duration_ms,
            asked,
        ));
        r
    }

    /// The next message of the recording stream; `None` at its end. The
    /// backend is asked once for its next chunk: a chunk becomes a message
    /// that carries it and no failure, and the end of the chunks is the end
    /// of the stream.
    pub fn next_recorded(&mut self) -> (r: Option<RecordAudioResponse>)
        ensures
            exists|chunk: Option<Vec<u8>>|
                #[trigger] old(self).backend().gives_chunk(&final(self).backend(), chunk)
                    && recorded(chunk, r),
            r is Some ==> r->0.error is None,
    {
        let chunk = self.sound.next_chunk();
        let ghost given = chunk;
        let r = match chunk {
            Some(audio_data) => Some(recorded_chunk(audio_data)),
            None => None,
        };
        assert(old(self).backend().gives_chunk(&self.backend(), given));
        r
    }

    /// Stops the opened recording: the backend is asked once, and its
    /// answer is the answer of the request, a failure as its client-visible
    /// status.
    pub fn stop_recording(&mut self) -> (r: Result<ActionResponse, Status>)
        ensures
            exists|outcome: Result<ActionResponse, HalError>|
                #[trigger] old(self).backend().stops_recording(&final(self).backend(), outcome)
                    && replied("Failed to stop recording"@, outcome, r),
            r is Err ==> is_failure_of(r->Err_0@, "Failed to stop recording"@),
    {
        let outcome = self.sound.stop_recording();
        let ghost asked = outcome;
        let r = reply("Failed to stop recording", outcome);
        assert(old(self).backend().stops_recording(&self.backend(), asked));
        r
    }
}

} // verus!
