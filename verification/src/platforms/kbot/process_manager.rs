//! Recording control over a video pipeline.
//!
//! The pipeline itself is built, started and stopped outside this module;
//! what is decided here is when that may happen and what each way in which
//! it can end means for the caller.

use crate::error::{Error, ErrorCode, ErrorView, HalError};
use crate::hal::{text_view, KClipResponseView, KClipStartResponse, KClipStopResponse};
use vstd::prelude::*;
use vstd::string::*;

verus! {

/// Seconds to wait for the pipeline to drain after the end of the stream
/// was signalled.
pub const DRAIN_TIMEOUT_SECONDS: u64 = 5;

/// The model of a [`KBotProcessManager`].
pub struct KBotProcessManagerView {
    /// The identifier of the recording that was last started and not
    /// stopped.
    pub kclip_uuid: Option<Seq<char>>,
    /// Whether a pipeline runs.
    pub recording: bool,
}

/// Recording control over a video pipeline.
pub struct KBotProcessManager {
    kclip_uuid: Option<String>,
    recording: bool,
}

impl View for KBotProcessManager {
    type V = KBotProcessManagerView;

    closed spec fn view(&self) -> KBotProcessManagerView {
        KBotProcessManagerView {
            kclip_uuid: text_view(self.kclip_uuid),
            recording: self.recording,
        }
    }
}

/// How the attempt to stop a running pipeline ended.
#[derive(Debug)]
pub enum PipelineStop {
    /// The pipeline has no message bus.
    NoBus,
    /// The pipeline reported an error while draining.
    PipelineError { error: String, debug: String },
    /// The pipeline refused to change to its idle state.
    NullFailed { reason: String },
    /// The pipeline accepted the change but has not reached its idle state.
    NullPending,
    /// The pipeline drained, or the wait ran out, and it reached its idle
    /// state.
    Stopped,
}

/// The model of a [`PipelineStop`].
pub enum PipelineStopView {
    NoBus,
    PipelineError { error: Seq<char>, debug: Seq<char> },
    NullFailed { reason: Seq<char> },
    NullPending,
    Stopped,
}

impl View for PipelineStop {
    type V = PipelineStopView;

    open spec fn view(&self) -> PipelineStopView {
        match self {
            PipelineStop::NoBus => PipelineStopView::NoBus,
            PipelineStop::PipelineError { error, debug } => PipelineStopView::PipelineError {
                error: error@,
                debug: debug@,
            },
            PipelineStop::NullFailed { reason } => PipelineStopView::NullFailed {
                reason: reason@,
            },
            PipelineStop::NullPending => PipelineStopView::NullPending,
            PipelineStop::Stopped => PipelineStopView::Stopped,
        }
    }
}

/// A response that names no recording and reports a failure.
pub open spec fn refused(code: ErrorCode, message: Seq<char>) -> KClipResponseView {
    KClipResponseView { clip_uuid: None, error: Some(ErrorView { code, message }) }
}

/// The file a recording is written to.
pub open spec fn clip_file(uuid: Seq<char>) -> Seq<char> {
    "out_"@ + uuid + ".mov"@
}

/// What a start request leads to.
#[derive(Debug)]
pub enum StartStep {
    /// A recording was started before; this is the answer.
    Refused(KClipStartResponse),
    /// A pipeline is to be created that writes to `file`.
    CreatePipeline { file: String },
}

/// What a stop request answers, for each way the stop can end.
pub open spec fn stop_outcome(s: KBotProcessManagerView, report: PipelineStopView) -> Result<
    KClipResponseView,
    ErrorView,
> {
    if !s.recording {
        Ok(refused(ErrorCode::InvalidArgument, "No active KClip recording"@))
    } else {
        match report {
            PipelineStopView::NoBus => Err(
                ErrorView { code: ErrorCode::Unknown, message: "Failed to get pipeline bus"@ },
            ),
            PipelineStopView::PipelineError { error, debug } => Ok(
                refused(
                    ErrorCode::Unknown,
                    "Pipeline error: "@ + error + " ("@ + debug + ")"@,
                ),
            ),
            PipelineStopView::NullFailed { reason } => Err(
                ErrorView {
                    code: ErrorCode::Unknown,
                    message: "Failed to set pipeline state to Null: "@ + reason,
                },
            ),
            PipelineStopView::NullPending => Ok(
                refused(ErrorCode::Unknown, "Failed to change pipeline state to Null"@),
            ),
            PipelineStopView::Stopped => Ok(
                KClipResponseView { clip_uuid: s.kclip_uuid, error: None },
            ),
        }
    }
}

/// The state after a stop request: only a stop that ran to its end forgets
/// the recording.
pub open spec fn after_stop(
    s: KBotProcessManagerView,
    report: PipelineStopView,
) -> KBotProcessManagerView {
    if s.recording && report is Stopped {
        KBotProcessManagerView { kclip_uuid: None, recording: false }
    } else {
        s
    }
}

fn refusal(code: ErrorCode, message: String) -> (e: Option<Error>)
    ensures
        e is Some,
        e->0@ == (ErrorView { code, message: message@ }),
{
    Some(Error { code, message })
}

impl KBotProcessManager {
    /// A process manager with no recording.
    pub fn new() -> (pm: KBotProcessManager)
        ensures
            pm@ == (KBotProcessManagerView { kclip_uuid: None, recording: false }),
    {
        KBotProcessManager { kclip_uuid: None, recording: false }
    }

    /// Whether a pipeline runs.
    pub fn is_recording(&self) -> (r: bool)
        ensures
            r == self@.recording,
    {
        self.recording
    }

    /// Takes a start request under the identifier `new_uuid`: it is refused
    /// where a recording was started before and not stopped; otherwise the
    /// identifier is remembered and a pipeline is asked for.
    pub fn start_kclip(&mut self, new_uuid: String) -> (step: StartStep)
        ensures
            old(self)@.kclip_uuid is Some ==> final(self)@ == old(self)@ && step is Refused
                && step->Refused_0@ == refused(
                ErrorCode::InvalidArgument,
                "KClip is already started"@,
            ),
            old(self)@.kclip_uuid is None ==> final(self)@ == (KBotProcessManagerView {
                kclip_uuid: Some(new_uuid@),
                ..old(self)@
            }) && step is CreatePipeline && step->file@ == clip_file(new_uuid@),
    {
        if self.kclip_uuid.is_some() {
            return StartStep::Refused(
                KClipStartResponse {
                    clip_uuid: None,
                    error: refusal(
                        ErrorCode::InvalidArgument,
                        String::from_str("KClip is already started"),
                    ),
                },
            );
        }
        let mut file = String::from_str("out_");
        file.append(new_uuid.as_str());
        file.append(".mov");
        self.kclip_uuid = Some(new_uuid);
        StartStep::CreatePipeline { file }
    }

    /// Takes the outcome of creating and starting the pipeline that the
    /// last start request asked for. On success the recording runs and the
    /// answer names it; on failure the failure is passed on.
    pub fn pipeline_started(&mut self, created: Result<(), String>) -> (r: Result<
        KClipStartResponse,
        HalError,
    >)
        ensures
            match created {
                Ok(_) => r is Ok && r->Ok_0@ == (KClipResponseView {
                    clip_uuid: old(self)@.kclip_uuid,
                    error: None,
                }) && final(self)@ == (KBotProcessManagerView { recording: true, ..old(self)@ }),
                Err(why) => r is Err && r->Err_0@ == (ErrorView {
                    code: ErrorCode::HardwareFailure,
                    message: why@,
                }) && final(self)@ == old(self)@,
            },
    {
        match created {
            Ok(_) => {
                self.recording = true;
                let clip_uuid = match &self.kclip_uuid {
                    Some(u) => Some(u.clone()),
                    None => None,
                };
                Ok(KClipStartResponse { clip_uuid, error: None })
            },
            Err(why) => Err(HalError::new(ErrorCode::HardwareFailure, why)),
        }
    }

    /// Takes a stop request together with the way in which stopping the
    /// pipeline ended. Where no pipeline runs the report is not looked at.
    pub fn stop_kclip(&mut self, report: PipelineStop) -> (r: Result<KClipStopResponse, HalError>)
        ensures
            final(self)@ == after_stop(old(self)@, report@),
            match stop_outcome(old(self)@, report@) {
                Ok(response) => r is Ok && r->Ok_0@ == response,
                Err(e) => r is Err && r->Err_0@ == e,
            },
    {
        if !self.recording {
            return Ok(
                KClipStopResponse {
                    clip_uuid: None,
                    error: refusal(
                        ErrorCode::InvalidArgument,
                        String::from_str("No active KClip recording"),
                    ),
                },
            );
        }
        match report {
            PipelineStop::NoBus => Err(
                HalError::new(ErrorCode::Unknown, String::from_str("Failed to get pipeline bus")),
            ),
            PipelineStop::PipelineError { error, debug } => {
                let mut message = String::from_str("Pipeline error: ");
                message.append(error.as_str());
                message.append(" (");
                message.append(debug.as_str());
                message.append(")");
                Ok(
                    KClipStopResponse {
                        clip_uuid: None,
                        error: refusal(ErrorCode::Unknown, message),
                    },
                )
            },
            PipelineStop::NullFailed { reason } => {
                let mut message = String::from_str("Failed to set pipeline state to Null: ");
                message.append(reason.as_str());
                Err(HalError::new(ErrorCode::Unknown, message))
            },
            PipelineStop::NullPending => Ok(
                KClipStopResponse {
                    clip_uuid: None,
                    error: refusal(
                        ErrorCode::Unknown,
                        String::from_str("Failed to change pipeline state to Null"),
                    ),
                },
            ),
            PipelineStop::Stopped => {
                let mut uuid: Option<String> = None;
                core::mem::swap(&mut uuid, &mut self.kclip_uuid);
                self.recording = false;
                Ok(KClipStopResponse { clip_uuid: uuid, error: None })
            },
        }
    }
}

} // verus!
