//! Recording control without a recorder behind it.

use crate::error::{Error, ErrorCode, ErrorView, HalError};
use crate::hal::{
    text_view, KClipResponseView, KClipStartResponse, KClipStopResponse, ProcessManager,
};
use crate::ids::fresh_uuid;
use vstd::prelude::*;
use vstd::string::*;

verus! {

/// A process manager that only remembers whether a recording runs.
pub struct StubProcessManager {
    kclip_uuid: Option<String>,
}

impl View for StubProcessManager {
    /// The identifier of the running recording, if one runs.
    type V = Option<Seq<char>>;

    closed spec fn view(&self) -> Option<Seq<char>> {
        text_view(self.kclip_uuid)
    }
}

/// The answer to a start request while a recording runs.
pub open spec fn already_started() -> KClipResponseView {
    KClipResponseView {
        clip_uuid: None,
        error: Some(
            ErrorView { code: ErrorCode::InvalidArgument, message: "KClip is already started"@ },
        ),
    }
}

/// The answer to a stop request while no recording runs.
pub open spec fn not_running() -> KClipResponseView {
    KClipResponseView {
        clip_uuid: None,
        error: Some(
            ErrorView { code: ErrorCode::InvalidArgument, message: "KClip is not running"@ },
        ),
    }
}

/// The answer that names a recording and reports no failure.
pub open spec fn clip(uuid: Seq<char>) -> KClipResponseView {
    KClipResponseView { clip_uuid: Some(uuid), error: None }
}

impl StubProcessManager {
    /// A process manager with no recording running.
    pub fn new() -> (pm: StubProcessManager)
        ensures
            pm@ is None,
    {
        StubProcessManager { kclip_uuid: None }
    }

    /// Starts a recording under the identifier `new_uuid`, unless one runs
    /// already.
    pub fn start_with(&mut self, new_uuid: String) -> (r: KClipStartResponse)
        ensures
            old(self)@ is Some ==> r@ == already_started() && final(self)@ == old(self)@,
            old(self)@ is None ==> r@ == clip(new_uuid@) && final(self)@ == Some(new_uuid@),
    {
        if self.kclip_uuid.is_some() {
            return KClipStartResponse {
                clip_uuid: None,
                error: Some(
                    Error {
                        code: ErrorCode::InvalidArgument,
                        message: String::from_str("KClip is already started"),
                    },
                ),
            };
        }
        self.kclip_uuid = Some(new_uuid.clone());
        KClipStartResponse { clip_uuid: Some(new_uuid), error: None }
    }

    /// Stops the running recording and names it, or reports that none runs.
    pub fn stop(&mut self) -> (r: KClipStopResponse)
        ensures
            final(self)@ is None,
            old(self)@ is Some ==> r@ == clip(old(self)@->0),
            old(self)@ is None ==> r@ == not_running(),
    {
        let mut running: Option<String> = None;
        core::mem::swap(&mut running, &mut self.kclip_uuid);
        match running {
            None => KClipStopResponse {
                clip_uuid: None,
                error: Some(
                    Error {
                        code: ErrorCode::InvalidArgument,
                        message: String::from_str("KClip is not running"),
                    },
                ),
            },
            Some(uuid) => KClipStopResponse { clip_uuid: Some(uuid), error: None },
        }
    }
}

impl ProcessManager for StubProcessManager {
    /// A start request always ends well: it is refused while a recording
    /// runs, and otherwise starts one under the identifier it answers with.
    open spec fn starts_kclip(
        &self,
        after: &Self,
        action: String,
        outcome: Result<KClipStartResponse, HalError>,
    ) -> bool {
        &&& outcome is Ok
        &&& self@ is Some ==> outcome->Ok_0@ == already_started() && after@ == self@
        &&& self@ is None ==> outcome->Ok_0@.error is None && outcome->Ok_0@.clip_uuid == after@
            && after@ is Some
    }

    /// A stop request always ends well and leaves no recording running: it
    /// names the recording that ran, or reports that none did.
    open spec fn stops_kclip(
        &self,
        after: &Self,
        outcome: Result<KClipStopResponse, HalError>,
    ) -> bool {
        &&& outcome is Ok
        &&& after@ is None
        &&& self@ is Some ==> outcome->Ok_0@ == clip(self@->0)
        &&& self@ is None ==> outcome->Ok_0@ == not_running()
    }

    /// Starts a recording under a fresh identifier, unless one runs already.
    fn start_kclip(&mut self, action: String) -> (r: Result<KClipStartResponse, HalError>)
        ensures
            r is Ok,
            old(self)@ is Some ==> r->Ok_0@ == already_started() && final(self)@ == old(self)@,
            old(self)@ is None ==> r->Ok_0@.error is None && r->Ok_0@.clip_uuid == final(self)@
                && final(self)@ is Some,
    {
        Ok(self.start_with(fresh_uuid()))
    }

    /// Stops the running recording and names it, or reports that none runs.
    fn stop_kclip(&mut self) -> (r: Result<KClipStopResponse, HalError>)
        ensures
            r is Ok,
            final(self)@ is None,
            old(self)@ is Some ==> r->Ok_0@ == clip(old(self)@->0),
            old(self)@ is None ==> r->Ok_0@ == not_running(),
    {
        Ok(self.stop())
    }
}

} // verus!
