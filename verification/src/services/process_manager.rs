//! The request adapter for recording control.

use crate::error::{is_failure_of, replied, reply, HalError, Status};
use crate::hal::{KClipStartResponse, KClipStopResponse, ProcessManager};
use vstd::prelude::*;

verus! {

/// Serves recording requests from one backend.
pub struct ProcessManagerServiceImpl<P: ProcessManager> {
    process_manager: P,
}

impl<P: ProcessManager> ProcessManagerServiceImpl<P> {
    /// An adapter in front of `process_manager`.
    pub fn new(process_manager: P) -> (s: Self)
        ensures
            s.backend() == process_manager,
    {
        ProcessManagerServiceImpl { process_manager }
    }

    /// The backend behind this adapter.
    pub closed spec fn backend(&self) -> P {
        self.process_manager
    }

    /// Starts a recording of `action`: the backend is asked once, with
    /// `action` as given, and its answer is the answer of the request, a
    /// failure as its client-visible status.
    pub fn start_k_clip(&mut self, action: String) -> (r: Result<KClipStartResponse, Status>)
        ensures
            exists|outcome: Result<KClipStartResponse, HalError>|
                #[trigger] old(self).backend().starts_kclip(&final(self).backend(), action, outcome)
                    && replied("Failed to start K-Clip"@, outcome, r),
            r is Err ==> is_failure_of(r->Err_0@, "Failed to start K-Clip"@),
    {
        let outcome = self.process_manager.start_kclip(action);
        let ghost asked = outcome;
        let r = reply("Failed to start K-Clip", outcome);
        assert(old(self).backend().starts_kclip(&self.backend(), action, asked));
        r
    }

    /// Stops the running recording: the backend is asked once, and its
    /// answer is the answer of the request, a failure as its client-visible
    /// status.
    pub fn stop_k_clip(&mut self) -> (r: Result<KClipStopResponse, Status>)
        ensures
            exists|outcome: Result<KClipStopResponse, HalError>|
                #[trigger] old(self).backend().stops_kclip(&final(self).backend(), outcome)
                    && replied("Failed to stop K-Clip"@, outcome, r),
            r is Err ==> is_failure_of(r->Err_0@, "Failed to stop K-Clip"@),
    {
        let outcome = self.process_manager.stop_kclip();
        let ghost asked = outcome;
        let r = reply("Failed to stop K-Clip", outcome);
        assert(old(self).backend().stops_kclip(&self.backend(), asked));
        r
    }
}

} // verus!
